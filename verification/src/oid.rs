use vstd::prelude::*;
use vstd::string::*;

use async_snmp::Oid;

use crate::text::{
    chars_of, dec_text, is_digit, join_spec, lemma_dec_text_digits, law_parse_reads_decimal_text,
    lemma_split_join, parse_u32, parse_u32_spec, split_chars, split_spec,
};

verus! {

#[verifier::external_type_specification]
#[verifier::external_body]
pub struct ExOid(async_snmp::Oid);

/// The arcs that an `async_snmp::Oid` holds, in order.
pub uninterp spec fn oid_arcs(oid: Oid) -> Seq<u32>;

/// The dot-separated pieces of an OID's text.
pub open spec fn oid_parts(s: Seq<char>) -> Seq<Seq<char>> {
    split_spec(s, '.')
}

/// Whether every dot-separated piece of `s` is the text of a `u32`.
pub open spec fn oid_text_valid(s: Seq<char>) -> bool {
    forall|k: int| 0 <= k < oid_parts(s).len() ==> (#[trigger] parse_u32_spec(oid_parts(s)[k])) is Some
}

/// The arcs that the dot-separated pieces of `s` denote.
pub open spec fn oid_text_arcs(s: Seq<char>) -> Seq<u32> {
    oid_parts(s).map_values(|p: Seq<char>| parse_u32_spec(p).unwrap())
}

/// The arcs written in decimal and joined by dots, as `Oid`'s `Display` writes them.
pub open spec fn dotted_text(arcs: Seq<u32>) -> Seq<char> {
    join_spec(arcs.map_values(|a: u32| dec_text(a as nat)), seq!['.'])
}

/// An `Oid` holding `arcs`, made by `Oid::from(Vec<u32>)`.
#[verifier::external_body]
pub(crate) fn oid_from_arcs(arcs: Vec<u32>) -> (oid: Oid)
    ensures
        oid_arcs(oid) == arcs@,
{
    Oid::from(arcs)
}

/// The text of `oid`, made by its `Display` impl, which writes each arc in
/// decimal with a dot between each two.
#[verifier::external_body]
pub(crate) fn oid_to_text(oid: &Oid) -> (s: String)
    ensures
        s@ == dotted_text(oid_arcs(*oid)),
{
    oid.to_string()
}

/// The arcs of the dotted text `s`, or nothing where a piece is not the text of a `u32`.
pub fn parse_oid_text(s: &str) -> (r: Option<Vec<u32>>)
    ensures
        r is Some <==> oid_text_valid(s@),
        r matches Some(v) ==> v@ == oid_text_arcs(s@),
{
    let chars = chars_of(s);
    let parts = split_chars(&chars, '.');
    let ghost pv = parts@.map_values(|p: Vec<char>| p@);
    assert(pv == oid_parts(s@));
    let mut arcs: Vec<u32> = Vec::new();
    let mut i: usize = 0;
    while i < parts.len()
        invariant
            i <= parts@.len(),
            pv == parts@.map_values(|p: Vec<char>| p@),
            pv == oid_parts(s@),
            arcs@.len() == i,
            forall|k: int| 0 <= k < i ==> (#[trigger] parse_u32_spec(pv[k])) is Some,
            forall|k: int| 0 <= k < i ==> arcs@[k] == parse_u32_spec(pv[k]).unwrap(),
        decreases parts.len() - i,
    {
        match parse_u32(&parts[i]) {
            Some(a) => {
                arcs.push(a);
            },
            None => {
                assert(parse_u32_spec(pv[i as int]) is None);
                return None;
            },
        }
        i = i + 1;
    }
    assert(arcs@ =~= oid_text_arcs(s@));
    Some(arcs)
}

/// The text of an OID with at least one arc, as its `Display` writes it, is a
/// valid OID text whose arcs are those of the OID: what `oid_to_text` gives,
/// `create_oids` reads back to the same arcs.
pub proof fn law_oid_text_roundtrip(arcs: Seq<u32>)
    requires
        arcs.len() >= 1,
    ensures
        oid_text_valid(dotted_text(arcs)),
        oid_text_arcs(dotted_text(arcs)) == arcs,
{
    let parts = arcs.map_values(|a: u32| dec_text(a as nat));
    assert forall|i: int| 0 <= i < parts.len() implies !(#[trigger] parts[i]).contains('.') by {
        lemma_dec_text_digits(arcs[i] as nat);
        if parts[i].contains('.') {
            let k = choose|k: int| 0 <= k < parts[i].len() && parts[i][k] == '.';
            assert(is_digit(parts[i][k]));
        }
    }
    lemma_split_join(parts, '.');
    assert(oid_parts(dotted_text(arcs)) == parts);
    assert forall|k: int| 0 <= k < parts.len() implies (#[trigger] parse_u32_spec(parts[k])) == Some(
        arcs[k],
    ) by {
        law_parse_reads_decimal_text(arcs[k]);
    }
    assert(oid_text_arcs(dotted_text(arcs)) =~= arcs);
}

} // verus!
