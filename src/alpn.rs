use vstd::prelude::*;

verus! {

/// The HTTP/3 ALPN identifiers, in the order of preference: the final
/// identifier first, then the legacy draft identifiers, newest first.
pub open spec fn h3_alpn_spec() -> Seq<Seq<u8>> {
    seq![
        seq![0x68u8, 0x33u8],
        seq![0x68u8, 0x33u8, 0x2du8, 0x32u8, 0x39u8],
        seq![0x68u8, 0x33u8, 0x2du8, 0x32u8, 0x38u8],
        seq![0x68u8, 0x33u8, 0x2du8, 0x32u8, 0x37u8],
    ]
}

/// The views of a list of byte strings.
pub open spec fn byte_strings_view(v: Seq<Vec<u8>>) -> Seq<Seq<u8>> {
    v.map_values(|b: Vec<u8>| b@)
}

/// Builds the fixed list of HTTP/3 ALPN identifiers that the server advertises.
pub fn h3_alpn_protocols() -> (r: Vec<Vec<u8>>)
    ensures
        byte_strings_view(r@) == h3_alpn_spec(),
{
    let r: Vec<Vec<u8>> = vec![
        vec![0x68u8, 0x33u8],
        vec![0x68u8, 0x33u8, 0x2du8, 0x32u8, 0x39u8],
        vec![0x68u8, 0x33u8, 0x2du8, 0x32u8, 0x38u8],
        vec![0x68u8, 0x33u8, 0x2du8, 0x32u8, 0x37u8],
    ];
    assert(byte_strings_view(r@) =~= h3_alpn_spec());
    r
}

} // verus!
