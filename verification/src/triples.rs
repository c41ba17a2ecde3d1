//! sRGB colours in a flat run of bytes: three bytes to a colour, red first.
use vstd::prelude::*;

verus! {

/// The bytes of the colours, one colour after the other.
pub open spec fn flat(rgbs: Seq<[u8; 3]>) -> Seq<u8> {
    Seq::new(3 * rgbs.len(), |k: int| rgbs[k / 3][k % 3])
}

/// The colours that a run of bytes holds, three bytes to a colour. Bytes
/// after the last full colour belong to none.
pub open spec fn triples(bytes: Seq<u8>) -> Seq<[u8; 3]> {
    Seq::new(bytes.len() / 3, |i: int| [bytes[3 * i], bytes[3 * i + 1], bytes[3 * i + 2]])
}

/// Reads a run of bytes as colours, three bytes to a colour. A run whose
/// length is no multiple of three is no run of colours and gives `None`.
pub fn rgb_bytes_to_rgbs(bytes: &[u8]) -> (rgbs: Option<Vec<[u8; 3]>>)
    ensures
        rgbs is Some <==> bytes@.len() % 3 == 0,
        rgbs is Some ==> rgbs->0@ == triples(bytes@),
{
    let n: usize = bytes.len();
    if n % 3 != 0 {
        return None;
    }
    let mut rgbs: Vec<[u8; 3]> = Vec::new();
    let mut at: usize = 0;
    while at < n
        invariant
            n == bytes@.len(),
            n % 3 == 0,
            at % 3 == 0,
            at <= n,
            rgbs@ == triples(bytes@.take(at as int)),
        decreases n - at,
    {
        let rgb: [u8; 3] = [bytes[at], bytes[at + 1], bytes[at + 2]];
        rgbs.push(rgb);
        at = at + 3;
        assert(rgbs@ =~= triples(bytes@.take(at as int)));
    }
    assert(bytes@.take(n as int) =~= bytes@);
    Some(rgbs)
}

/// Writes the colours out as one run of bytes, three bytes to a colour.
pub fn rgbs_to_rgb_bytes(rgbs: &[[u8; 3]]) -> (bytes: Vec<u8>)
    ensures
        bytes@ == flat(rgbs@),
{
    let n: usize = rgbs.len();
    let mut bytes: Vec<u8> = Vec::new();
    let mut at: usize = 0;
    while at < n
        invariant
            n == rgbs@.len(),
            at <= n,
            bytes@ == flat(rgbs@.take(at as int)),
        decreases n - at,
    {
        let rgb: &[u8; 3] = &rgbs[at];
        bytes.push(rgb[0]);
        bytes.push(rgb[1]);
        bytes.push(rgb[2]);
        at = at + 1;
        assert(bytes@ =~= flat(rgbs@.take(at as int)));
    }
    assert(rgbs@.take(n as int) =~= rgbs@);
    bytes
}

/// Writing colours out and reading the bytes back gives the colours again,
/// as many as there were.
pub proof fn lemma_read_what_was_written(rgbs: Seq<[u8; 3]>)
    ensures
        flat(rgbs).len() == 3 * rgbs.len(),
        triples(flat(rgbs)) == rgbs,
{
    let back = triples(flat(rgbs));
    assert(back.len() == rgbs.len());
    assert forall|i: int| 0 <= i < rgbs.len() implies back[i] == rgbs[i] by {
        assert(back[i] =~= rgbs[i]);
    }
    assert(back =~= rgbs);
}

/// Reading a run of whole colours and writing them out gives the bytes
/// again, and a third as many colours as bytes.
pub proof fn lemma_write_what_was_read(bytes: Seq<u8>)
    requires
        bytes.len() % 3 == 0,
    ensures
        3 * triples(bytes).len() == bytes.len(),
        flat(triples(bytes)) == bytes,
{
    assert(flat(triples(bytes)) =~= bytes);
}

} // verus!
