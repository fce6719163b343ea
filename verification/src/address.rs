//! Connection handles and device addresses.
use vstd::prelude::*;

verus! {

/// Newtype for a connection handle.
///
/// Values:
/// - 0x0000 .. 0xEFFF: Unenhanced ATT bearer
/// - 0xEA00 .. 0xEA3F: Enhanced ATT bearer (the LSB-byte of the parameter is
/// the connection oriented channel index)
#[derive(Clone, Copy, Debug, PartialEq, Eq)]
pub struct ConnectionHandle(pub u16);

/// Newtype for BDADDR.
#[derive(Copy, Clone, Debug, PartialEq, Eq)]
pub struct BdAddr(pub [u8; 6]);

/// Potential values for BDADDR
#[derive(Copy, Clone, Debug, PartialEq, Eq)]
pub enum BdAddrType {
    /// Public address.
    Public(BdAddr),
    /// Random address.
    Random(BdAddr),
}

/// The BD Address type is not recognized.  Includes the unrecognized byte.
///
/// See [`to_bd_addr_type`]
#[derive(Copy, Clone, Debug, PartialEq, Eq)]
pub struct BdAddrTypeError(pub u8);

/// The byte that tells the kind of an address: 0 for public, 1 for random.
pub open spec fn bd_addr_type_code(t: BdAddrType) -> u8 {
    match t {
        BdAddrType::Public(_) => 0,
        BdAddrType::Random(_) => 1,
    }
}

/// The address that a typed address carries.
pub open spec fn bd_addr_of(t: BdAddrType) -> BdAddr {
    match t {
        BdAddrType::Public(addr) => addr,
        BdAddrType::Random(addr) => addr,
    }
}

/// The seven bytes of a typed address on the wire: the type byte, then the six address bytes.
pub open spec fn bd_addr_type_bytes(t: BdAddrType) -> Seq<u8> {
    seq![bd_addr_type_code(t)] + bd_addr_of(t).0@
}

/// The typed address that a type byte and an address make: the address of that type whose code
/// is the byte, or the byte back as an error.
pub open spec fn bd_addr_type_from(bd_addr_type: u8, addr: BdAddr) -> Result<
    BdAddrType,
    BdAddrTypeError,
> {
    if bd_addr_type == 0 {
        Ok(BdAddrType::Public(addr))
    } else if bd_addr_type == 1 {
        Ok(BdAddrType::Random(addr))
    } else {
        Err(BdAddrTypeError(bd_addr_type))
    }
}

impl BdAddrType {
    /// Writes a `BdAddrType` into the given slice.  The slice must be exactly the right length (7
    /// bytes).
    pub fn copy_into_slice(&self, bytes: &mut [u8])
        requires
            old(bytes)@.len() == 7,
        ensures
            final(bytes)@ == bd_addr_type_bytes(*self),
            final(bytes)@.len() == 7,
            final(bytes)@[0] == (if *self is Public {
                0u8
            } else {
                1u8
            }),
            *self matches BdAddrType::Public(a) ==> forall|i: int|
                0 <= i < 6 ==> final(bytes)@[i + 1] == #[trigger] a.0[i],
            *self matches BdAddrType::Random(a) ==> forall|i: int|
                0 <= i < 6 ==> final(bytes)@[i + 1] == #[trigger] a.0[i],
    {
        let (code, addr): (u8, BdAddr) = match *self {
            BdAddrType::Public(addr) => (0, addr),
            BdAddrType::Random(addr) => (1, addr),
        };
        bytes[0] = code;
        let mut i: usize = 0;
        while i < 6
            invariant
                0 <= i <= 6,
                bytes@.len() == 7,
                bytes@[0] == code,
                code == bd_addr_type_code(*self),
                addr == bd_addr_of(*self),
                forall|j: int| 0 <= j < i ==> bytes@[j + 1] == addr.0@[j],
            decreases 6 - i,
        {
            bytes[i + 1] = addr.0[i];
            i = i + 1;
        }
        assert(bytes@ =~= bd_addr_type_bytes(*self));
        proof {
            lemma_bd_addr_type_bytes(addr);
        }
    }
}

/// Wraps a [`BdAddr`] in a [`BdAddrType`].
///
/// # Errors
///
/// - `bd_addr_type` does not denote an appropriate type. Returns the byte. The address is
///   discarded.
pub fn to_bd_addr_type(bd_addr_type: u8, addr: BdAddr) -> (res: Result<BdAddrType, BdAddrTypeError>)
    ensures
        res == bd_addr_type_from(bd_addr_type, addr),
        bd_addr_type == 0 ==> res == Ok::<BdAddrType, BdAddrTypeError>(BdAddrType::Public(addr)),
        bd_addr_type == 1 ==> res == Ok::<BdAddrType, BdAddrTypeError>(BdAddrType::Random(addr)),
        bd_addr_type > 1 ==> res == Err::<BdAddrType, BdAddrTypeError>(
            BdAddrTypeError(bd_addr_type),
        ),
{
    match bd_addr_type {
        0 => Ok(BdAddrType::Public(addr)),
        1 => Ok(BdAddrType::Random(addr)),
        _ => Err(BdAddrTypeError(bd_addr_type)),
    }
}

/// Whatever the address, a public address is written as the byte 0 and a random one as the
/// byte 1, each followed by the address's own six bytes in order.
pub proof fn lemma_bd_addr_type_bytes(a: BdAddr)
    ensures
        bd_addr_type_bytes(BdAddrType::Public(a)) == seq![0u8] + a.0@,
        bd_addr_type_bytes(BdAddrType::Random(a)) == seq![1u8] + a.0@,
        bd_addr_type_bytes(BdAddrType::Public(a)).len() == 7,
        bd_addr_type_bytes(BdAddrType::Random(a)).len() == 7,
        forall|i: int|
            0 <= i < 6 ==> bd_addr_type_bytes(BdAddrType::Public(a))[i + 1] == #[trigger] a.0[i]
                && bd_addr_type_bytes(BdAddrType::Random(a))[i + 1] == a.0[i],
{
    assert(bd_addr_type_bytes(BdAddrType::Public(a)) =~= seq![0u8] + a.0@);
    assert(bd_addr_type_bytes(BdAddrType::Random(a)) =~= seq![1u8] + a.0@);
}

/// Whatever the address, the type byte 0 wraps it as a public address and the byte 1 as a
/// random one, the address itself unchanged; every other byte is refused with that byte.
pub proof fn lemma_bd_addr_type_from_wraps(b: u8, a: BdAddr)
    ensures
        bd_addr_type_from(0, a) == Ok::<BdAddrType, BdAddrTypeError>(BdAddrType::Public(a)),
        bd_addr_type_from(1, a) == Ok::<BdAddrType, BdAddrTypeError>(BdAddrType::Random(a)),
        b > 1 ==> bd_addr_type_from(b, a) == Err::<BdAddrType, BdAddrTypeError>(
            BdAddrTypeError(b),
        ),
{
}

/// A type byte is accepted exactly when it is 0 or 1; an accepted byte gives an address of that
/// kind that carries the given address unchanged, and a refused one comes back in the error.
pub proof fn lemma_bd_addr_type_from(bd_addr_type: u8, addr: BdAddr)
    ensures
        bd_addr_type_from(bd_addr_type, addr) is Ok <==> bd_addr_type <= 1,
        bd_addr_type_from(bd_addr_type, addr) matches Ok(t) ==> bd_addr_type_code(t)
            == bd_addr_type && bd_addr_of(t) == addr,
        bd_addr_type_from(bd_addr_type, addr) matches Err(e) ==> e == BdAddrTypeError(
            bd_addr_type,
        ),
{
}

/// Writing a typed address gives seven bytes from which it is read back: the first byte, with
/// the address held in the other six, makes the same typed address again.
pub proof fn lemma_bd_addr_type_bytes_round_trip(t: BdAddrType, addr: BdAddr)
    requires
        addr.0@ == bd_addr_type_bytes(t).subrange(1, 7),
    ensures
        bd_addr_type_bytes(t).len() == 7,
        bd_addr_type_from(bd_addr_type_bytes(t)[0], addr) == Ok::<BdAddrType, BdAddrTypeError>(t),
{
    let a = bd_addr_of(t);
    assert(bd_addr_type_bytes(t).subrange(1, 7) =~= a.0@);
    assert forall|i: int| 0 <= i < 6 implies addr.0[i] == a.0[i] by {
        assert(addr.0@[i] == a.0@[i]);
    }
    assert(addr.0 =~= a.0);
}

/// Reading a type byte and an address and writing the result gives the byte followed by the
/// address's bytes.
pub proof fn lemma_bd_addr_type_from_bytes(bd_addr_type: u8, addr: BdAddr)
    requires
        bd_addr_type <= 1,
    ensures
        bd_addr_type_from(bd_addr_type, addr) matches Ok(t) && bd_addr_type_bytes(t) == seq![
            bd_addr_type,
        ] + addr.0@,
{
}

} // verus!
