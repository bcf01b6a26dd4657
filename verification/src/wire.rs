//! Ordered, typed fields: what a statement reads from its input source and
//! hands to its output sink. How fields are framed in bytes is left to the
//! transport; their order, types and sizes are fixed here.

use vstd::prelude::*;

verus! {

/// One field of an ordered input or output.
#[derive(Clone, Debug, PartialEq, Eq)]
pub enum Field {
    /// An 8-bit unsigned value.
    U8(u8),
    /// A 64-bit unsigned value.
    U64(u64),
    /// A flag.
    Bool(bool),
    /// A byte string of fixed size, such as a digest or a jurisdiction code.
    Bytes(Vec<u8>),
    /// A list of byte strings of one fixed size.
    BytesList(Vec<Vec<u8>>),
    /// A list of flags.
    BoolList(Vec<bool>),
}

/// The value of a `U8` field.
pub open spec fn u8_of(field: Field) -> Option<u8> {
    match field {
        Field::U8(v) => Some(v),
        _ => None,
    }
}

/// The value of a `U64` field.
pub open spec fn u64_of(field: Field) -> Option<u64> {
    match field {
        Field::U64(v) => Some(v),
        _ => None,
    }
}

/// The value of a `Bool` field.
pub open spec fn bool_of(field: Field) -> Option<bool> {
    match field {
        Field::Bool(v) => Some(v),
        _ => None,
    }
}

/// The bytes of a `Bytes` field that holds exactly `size` bytes.
pub open spec fn bytes_of(field: Field, size: nat) -> Option<Seq<u8>> {
    match field {
        Field::Bytes(b) => if b@.len() == size {
            Some(b@)
        } else {
            None
        },
        _ => None,
    }
}

/// Whether every item of a list holds exactly `size` bytes.
pub open spec fn all_sized(items: Seq<Vec<u8>>, size: nat) -> bool {
    forall|k: int| 0 <= k < items.len() ==> (#[trigger] items[k])@.len() == size
}

/// The items of a `BytesList` field whose items all hold `size` bytes.
pub open spec fn list_of(field: Field, size: nat) -> Option<Seq<Seq<u8>>> {
    match field {
        Field::BytesList(items) => if all_sized(items@, size) {
            Some(Seq::new(items@.len(), |k: int| items@[k]@))
        } else {
            None
        },
        _ => None,
    }
}

/// The flags of a `BoolList` field.
pub open spec fn flags_of(field: Field) -> Option<Seq<bool>> {
    match field {
        Field::BoolList(flags) => Some(flags@),
        _ => None,
    }
}

/// The items of a list of arrays, each as its byte string.
pub open spec fn byte_strings<const N: usize>(items: Seq<[u8; N]>) -> Seq<Seq<u8>> {
    Seq::new(items.len(), |k: int| items[k]@)
}

/// Reads a `U8` field.
pub fn read_u8(field: &Field) -> (value: Option<u8>)
    ensures
        value == u8_of(*field),
{
    match field {
        Field::U8(v) => Some(*v),
        _ => None,
    }
}

/// Reads a `U64` field.
pub fn read_u64(field: &Field) -> (value: Option<u64>)
    ensures
        value == u64_of(*field),
{
    match field {
        Field::U64(v) => Some(*v),
        _ => None,
    }
}

/// Reads a `Bool` field.
pub fn read_bool(field: &Field) -> (value: Option<bool>)
    ensures
        value == bool_of(*field),
{
    match field {
        Field::Bool(v) => Some(*v),
        _ => None,
    }
}

/// Copies a byte string of exactly `N` bytes into an array; any other
/// length is refused.
pub fn to_array<const N: usize>(bytes: &Vec<u8>) -> (value: Option<[u8; N]>)
    ensures
        value is Some <==> bytes@.len() == N,
        value matches Some(a) ==> a@ == bytes@,
{
    if bytes.len() != N {
        return None;
    }
    let mut out: [u8; N] = [0u8; N];
    let mut i: usize = 0;
    while i < N
        invariant
            bytes@.len() == N,
            i <= N,
            forall|k: int| 0 <= k < i ==> out@[k] == bytes@[k],
        decreases N - i,
    {
        out[i] = bytes[i];
        i = i + 1;
    }
    assert(out@ =~= bytes@);
    Some(out)
}

/// Reads a `Bytes` field of exactly `N` bytes.
pub fn read_bytes<const N: usize>(field: &Field) -> (value: Option<[u8; N]>)
    ensures
        value is Some <==> bytes_of(*field, N as nat) is Some,
        value matches Some(a) ==> bytes_of(*field, N as nat) == Some(a@),
{
    match field {
        Field::Bytes(b) => to_array::<N>(b),
        _ => None,
    }
}

/// Copies the items of a list into arrays of `N` bytes; a list with an
/// item of any other length is refused.
pub fn to_arrays<const N: usize>(items: &Vec<Vec<u8>>) -> (value: Option<Vec<[u8; N]>>)
    ensures
        value is Some <==> all_sized(items@, N as nat),
        value matches Some(v) ==> byte_strings(v@) == Seq::new(
            items@.len(),
            |k: int| items@[k]@,
        ),
{
    let n: usize = items.len();
    let mut out: Vec<[u8; N]> = Vec::new();
    let mut i: usize = 0;
    while i < n
        invariant
            n == items@.len(),
            i <= n,
            out@.len() == i,
            forall|k: int| 0 <= k < i ==> (#[trigger] items@[k])@.len() == N,
            forall|k: int| 0 <= k < i ==> (#[trigger] out@[k])@ == items@[k]@,
        decreases n - i,
    {
        match to_array::<N>(&items[i]) {
            None => {
                assert(items@[i as int]@.len() != N);
                return None;
            },
            Some(a) => {
                out.push(a);
            },
        }
        i = i + 1;
    }
    assert(byte_strings(out@) =~= Seq::new(items@.len(), |k: int| items@[k]@));
    Some(out)
}

/// Reads a `BytesList` field whose items all hold exactly `N` bytes.
pub fn read_list<const N: usize>(field: &Field) -> (value: Option<Vec<[u8; N]>>)
    ensures
        value is Some <==> list_of(*field, N as nat) is Some,
        value matches Some(v) ==> list_of(*field, N as nat) == Some(byte_strings(v@)),
{
    match field {
        Field::BytesList(items) => to_arrays::<N>(items),
        _ => None,
    }
}

/// Copies a list of flags.
pub fn copy_flags(flags: &Vec<bool>) -> (copy: Vec<bool>)
    ensures
        copy@ == flags@,
{
    let n: usize = flags.len();
    let mut out: Vec<bool> = Vec::new();
    let mut i: usize = 0;
    while i < n
        invariant
            n == flags@.len(),
            i <= n,
            out@ == flags@.subrange(0, i as int),
        decreases n - i,
    {
        out.push(flags[i]);
        i = i + 1;
        assert(out@ =~= flags@.subrange(0, i as int));
    }
    assert(flags@.subrange(0, n as int) =~= flags@);
    out
}

/// Reads a `BoolList` field.
pub fn read_flags(field: &Field) -> (value: Option<Vec<bool>>)
    ensures
        value is Some <==> flags_of(*field) is Some,
        value matches Some(v) ==> flags_of(*field) == Some(v@),
{
    match field {
        Field::BoolList(flags) => Some(copy_flags(flags)),
        _ => None,
    }
}

/// Wraps the bytes of `src` in a `Bytes` field.
pub fn bytes_field(src: &[u8]) -> (field: Field)
    ensures
        bytes_of(field, src@.len()) == Some(src@),
{
    let mut buf: Vec<u8> = Vec::new();
    crate::hashing::append_bytes(&mut buf, src);
    Field::Bytes(buf)
}

} // verus!
