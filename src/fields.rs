//! Width-checked readers of big-endian fields at a position in a byte slice.
use vstd::prelude::*;

verus! {

/// Why a fixed-width region could not be decoded.
#[derive(Debug, Clone, Copy, PartialEq, Eq, Structural)]
pub enum ParseError {
    /// Fewer bytes remain than the field needs.
    InsufficientData,
}

/// The big-endian value of two bytes.
pub open spec fn be16(hi: u8, lo: u8) -> int {
    hi as int * 256 + lo as int
}

/// The first four bytes of `slice`, or `None` when it is shorter than that.
pub fn be_array_4(slice: &[u8]) -> (r: Option<[u8; 4]>)
    ensures
        slice@.len() < 4 <==> r is None,
        r matches Some(a) ==> a@ == slice@.subrange(0, 4),
{
    if slice.len() < 4 {
        None
    } else {
        let a = [slice[0], slice[1], slice[2], slice[3]];
        assert(a@ =~= slice@.subrange(0, 4));
        Some(a)
    }
}

/// Applies `f` to the value held by `opt`, if any.
pub fn map_option<A, B, F: Fn(A) -> B>(opt: Option<A>, f: F) -> (r: Option<B>)
    requires
        opt matches Some(a) ==> f.requires((a,)),
    ensures
        opt is None <==> r is None,
        opt matches Some(a) ==> (r matches Some(b) && f.ensures((a,), b)),
{
    match opt {
        Some(a) => Some(f(a)),
        None => None,
    }
}

/// The byte at `pos`, and the position after it.
pub fn read_u8(bytes: &[u8], pos: usize) -> (r: Result<(u8, usize), ParseError>)
    ensures
        pos + 1 <= bytes@.len() <==> r is Ok,
        r matches Err(e) ==> e == ParseError::InsufficientData,
        r matches Ok((v, next)) ==> v == bytes@[pos as int] && next == pos + 1,
{
    if pos >= bytes.len() {
        Err(ParseError::InsufficientData)
    } else {
        Ok((bytes[pos], pos + 1))
    }
}

/// The big-endian 16-bit integer at `pos`, and the position after it.
pub fn read_u16_be(bytes: &[u8], pos: usize) -> (r: Result<(u16, usize), ParseError>)
    ensures
        pos + 2 <= bytes@.len() <==> r is Ok,
        r matches Err(e) ==> e == ParseError::InsufficientData,
        r matches Ok((v, next)) ==> v == be16(bytes@[pos as int], bytes@[pos + 1])
            && next == pos + 2,
{
    if pos >= bytes.len() || bytes.len() - pos < 2 {
        Err(ParseError::InsufficientData)
    } else {
        let v = (bytes[pos] as u16) * 256 + bytes[pos + 1] as u16;
        Ok((v, pos + 2))
    }
}

/// The four bytes at `pos`, and the position after them.
pub fn read_array_4(bytes: &[u8], pos: usize) -> (r: Result<([u8; 4], usize), ParseError>)
    ensures
        pos + 4 <= bytes@.len() <==> r is Ok,
        r matches Err(e) ==> e == ParseError::InsufficientData,
        r matches Ok((a, next)) ==> a@ == bytes@.subrange(pos as int, pos + 4) && next == pos
            + 4,
{
    if pos >= bytes.len() {
        return Err(ParseError::InsufficientData);
    }
    let rest = vstd::slice::slice_subrange(bytes, pos, bytes.len());
    match be_array_4(rest) {
        Some(a) => {
            assert(a@ =~= bytes@.subrange(pos as int, pos + 4));
            Ok((a, pos + 4))
        },
        None => Err(ParseError::InsufficientData),
    }
}

} // verus!
