//! Big-endian integers and fixed-width fields read from a byte buffer.
use vstd::prelude::*;

verus! {

/// The unsigned 16-bit integer stored big-endian at `at`.
pub open spec fn be_u16(bytes: Seq<u8>, at: int) -> u16
    recommends
        0 <= at,
        at + 2 <= bytes.len(),
{
    (bytes[at] as int * 0x100 + bytes[at + 1] as int) as u16
}

/// The unsigned 32-bit integer stored big-endian at `at`.
pub open spec fn be_u32(bytes: Seq<u8>, at: int) -> u32
    recommends
        0 <= at,
        at + 4 <= bytes.len(),
{
    (bytes[at] as int * 0x100_0000 + bytes[at + 1] as int * 0x1_0000 + bytes[at + 2] as int * 0x100
        + bytes[at + 3] as int) as u32
}

/// The unsigned 64-bit integer stored big-endian at `at`.
pub open spec fn be_u64(bytes: Seq<u8>, at: int) -> u64
    recommends
        0 <= at,
        at + 8 <= bytes.len(),
{
    (be_u32(bytes, at) as int * 0x1_0000_0000 + be_u32(bytes, at + 4) as int) as u64
}

/// `count` consecutive big-endian 32-bit integers, the first one at `at`.
pub open spec fn be_u32_run(bytes: Seq<u8>, at: int, count: nat) -> Seq<u32>
    recommends
        0 <= at,
        at + 4 * count <= bytes.len(),
{
    Seq::new(count, |i: int| be_u32(bytes, at + 4 * i))
}

pub fn read_u16(buffer: &[u8], at: usize) -> (value: u16)
    requires
        at + 2 <= buffer.len(),
    ensures
        value == be_u16(buffer@, at as int),
{
    let high: u16 = buffer[at] as u16;
    let low: u16 = buffer[at + 1] as u16;
    high * 0x100 + low
}

pub fn read_u32(buffer: &[u8], at: usize) -> (value: u32)
    requires
        at + 4 <= buffer.len(),
    ensures
        value == be_u32(buffer@, at as int),
{
    let b0: u32 = buffer[at] as u32;
    let b1: u32 = buffer[at + 1] as u32;
    let b2: u32 = buffer[at + 2] as u32;
    let b3: u32 = buffer[at + 3] as u32;
    b0 * 0x100_0000 + b1 * 0x1_0000 + b2 * 0x100 + b3
}

pub fn read_u64(buffer: &[u8], at: usize) -> (value: u64)
    requires
        at + 8 <= buffer.len(),
    ensures
        value == be_u64(buffer@, at as int),
{
    let high: u64 = read_u32(buffer, at) as u64;
    let low: u64 = read_u32(buffer, at + 4) as u64;
    high * 0x1_0000_0000 + low
}

/// Copies the `N` bytes that start at `at`.
pub fn read_bytes<const N: usize>(buffer: &[u8], at: usize) -> (field: [u8; N])
    requires
        at + N <= buffer.len(),
    ensures
        field@ == buffer@.subrange(at as int, at + N),
{
    let mut field: [u8; N] = [0u8; N];
    let mut i: usize = 0;
    while i < N
        invariant
            i <= N,
            at + N <= buffer.len(),
            forall|k: int| 0 <= k < i ==> field@[k] == buffer@[at + k],
        decreases N - i,
    {
        field[i] = buffer[at + i];
        i = i + 1;
    }
    field
}

/// Reads `N` consecutive big-endian 32-bit integers, the first one at `at`.
pub fn read_u32_array<const N: usize>(buffer: &[u8], at: usize) -> (field: [u32; N])
    requires
        at + 4 * N <= buffer.len(),
    ensures
        field@ == be_u32_run(buffer@, at as int, N as nat),
{
    let mut field: [u32; N] = [0u32; N];
    let mut i: usize = 0;
    while i < N
        invariant
            i <= N,
            at + 4 * N <= buffer.len(),
            forall|k: int| 0 <= k < i ==> field@[k] == be_u32(buffer@, at + 4 * k),
        decreases N - i,
    {
        field[i] = read_u32(buffer, at + 4 * i);
        i = i + 1;
    }
    field
}

/// Reads `count` consecutive big-endian 32-bit integers, the first one at `at`.
pub fn read_u32_run(buffer: &[u8], at: usize, count: usize) -> (run: Vec<u32>)
    requires
        at + 4 * count <= buffer.len(),
    ensures
        run@ == be_u32_run(buffer@, at as int, count as nat),
{
    let mut run: Vec<u32> = Vec::new();
    let mut i: usize = 0;
    while i < count
        invariant
            i <= count,
            at + 4 * count <= buffer.len(),
            run@.len() == i,
            forall|k: int| 0 <= k < i ==> run@[k] == be_u32(buffer@, at + 4 * k),
        decreases count - i,
    {
        run.push(read_u32(buffer, at + 4 * i));
        i = i + 1;
    }
    run
}

/// The part of `buffer` from `at` to its end.
pub fn tail(buffer: &[u8], at: usize) -> (rest: &[u8])
    requires
        at <= buffer.len(),
    ensures
        rest@ == buffer@.subrange(at as int, buffer.len() as int),
{
    &buffer[at..buffer.len()]
}

} // verus!
