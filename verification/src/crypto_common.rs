//! Common types of the crypto IPC protocol: the cipher modes and the
//! operation codes of requests.

use vstd::prelude::*;

use crate::bytes::{from_le32, u32_from_le};

verus! {

/// A block cipher mode, sent as four ASCII characters.
#[derive(Clone, Copy, PartialEq, Eq, Structural, Debug)]
pub struct CipherMode(pub u32);

impl CipherMode {
    /// "ECB_".
    #[allow(non_snake_case)]
    pub fn ECB() -> (r: Self)
        ensures
            r.0 == 0x5f42_4345,
    {
        CipherMode(0x5f42_4345)
    }

    /// "CBC_".
    #[allow(non_snake_case)]
    pub fn CBC() -> (r: Self)
        ensures
            r.0 == 0x5f43_4243,
    {
        CipherMode(0x5f43_4243)
    }

    /// "CFB_".
    #[allow(non_snake_case)]
    pub fn CFB() -> (r: Self)
        ensures
            r.0 == 0x5f42_4643,
    {
        CipherMode(0x5f42_4643)
    }

    /// "CTR_".
    #[allow(non_snake_case)]
    pub fn CTR() -> (r: Self)
        ensures
            r.0 == 0x5f52_5443,
    {
        CipherMode(0x5f52_5443)
    }

    /// "OFB_".
    #[allow(non_snake_case)]
    pub fn OFB() -> (r: Self)
        ensures
            r.0 == 0x5f42_464f,
    {
        CipherMode(0x5f42_464f)
    }
}

/// The operation code of a crypto request: a class (two characters) and
/// an operation within it (two characters).
#[derive(Clone, Copy, PartialEq, Eq, Structural, Debug)]
pub struct Opcode(u16, u16);

/// The two little-endian halves of a 32-bit word.
pub open spec fn low_half(v: u32) -> u16 {
    (v % 65536) as u16
}

/// The high half of a 32-bit word.
pub open spec fn high_half(v: u32) -> u16 {
    (v / 65536) as u16
}

impl Opcode {
    /// The class.
    pub closed spec fn spec_class(self) -> u16 {
        self.0
    }

    /// The operation within the class.
    pub closed spec fn spec_op(self) -> u16 {
        self.1
    }

    /// Two opcodes are equal exactly when class and operation are.
    pub proof fn lemma_parts_injective(a: Opcode, b: Opcode)
        ensures
            (a.spec_class() == b.spec_class() && a.spec_op() == b.spec_op()) <==> a == b,
    {
    }

    /// The opcode of four characters: the first two give the class, the
    /// last two the operation.
    fn fourcc(code: [u8; 4]) -> (r: Opcode)
        ensures
            r.spec_class() == low_half(from_le32(code@)),
            r.spec_op() == high_half(from_le32(code@)),
    {
        let all: &[u8] = &code;
        let v = u32_from_le(all, 0);
        assert((v & 0xffffu32) == v % 65536 && (v >> 16u32) == v / 65536) by (bit_vector);
        Opcode((v & 0xffff) as u16, (v >> 16) as u16)
    }

    /// The opcode that a little-endian word encodes: the low half is the
    /// class, the high half the operation.
    pub closed spec fn spec_from_word(v: u32) -> Opcode {
        Opcode(low_half(v), high_half(v))
    }

    /// The class and operation of the opcode that a word encodes.
    pub proof fn lemma_from_word(v: u32)
        ensures
            Opcode::spec_from_word(v).spec_class() == low_half(v),
            Opcode::spec_from_word(v).spec_op() == high_half(v),
    {
    }

    /// The opcode at the start of `b`, or `Err` where `b` is shorter than
    /// four bytes.
    pub fn read_from_prefix(b: &[u8]) -> (r: Result<Opcode, ()>)
        ensures
            b@.len() < 4 <==> r is Err,
            r matches Ok(op) ==> op == Opcode::spec_from_word(from_le32(b@.subrange(0, 4))),
    {
        if b.len() < 4 {
            return Err(());
        }
        let v = u32_from_le(b, 0);
        assert((v & 0xffffu32) == v % 65536 && (v >> 16u32) == v / 65536) by (bit_vector);
        Ok(Opcode((v & 0xffff) as u16, (v >> 16) as u16))
    }

    /// The opcode of a class and two characters of operation.
    fn new(class: u16, op: [u8; 2]) -> (r: Self)
        ensures
            r.spec_class() == class,
            r.spec_op() == op[0] as int + 256 * op[1] as int,
    {
        let lo = op[0] as u16;
        let hi = op[1] as u16;
        assert(lo < 256 && hi < 256 ==> (lo | (hi << 8u16)) == lo + 256 * hi) by (bit_vector);
        Opcode(class, lo | (hi << 8))
    }

    /// The class.
    pub fn class(self) -> (r: u16)
        ensures
            r == self.spec_class(),
    {
        self.0
    }

    /// The operation within the class.
    pub fn op(self) -> (r: u16)
        ensures
            r == self.spec_op(),
    {
        self.1
    }

    /// "PING".
    #[allow(non_snake_case)]
    pub fn PING() -> (r: Opcode)
        ensures
            r.spec_class() == 0x4950,
            r.spec_op() == 0x474e,
    {
        let r = Self::fourcc([0x50, 0x49, 0x4e, 0x47]);
        assert(from_le32(seq![0x50u8, 0x49u8, 0x4eu8, 0x47u8]) == 0x474e4950u32);
        r
    }

    /// Class "P2".
    pub const CLASS_ECDSA_P256: u16 = 0x3250;

    /// Class "DI".
    pub const CLASS_DICE_P256: u16 = 0x4944;

    /// Class "E2".
    pub const CLASS_ECDH_P256: u16 = 0x3245;

    /// Class "P3".
    pub const CLASS_ECDSA_P384: u16 = 0x3350;

    /// Class "E3".
    pub const CLASS_ECDH_P384: u16 = 0x3345;

    /// Class "Ed".
    pub const CLASS_ED25519: u16 = 0x6445;

    /// Class "X2".
    pub const CLASS_X25519: u16 = 0x3258;

    /// Class "R2".
    pub const CLASS_RSA2048: u16 = 0x3252;

    /// Class "R3".
    pub const CLASS_RSA3072: u16 = 0x3352;

    /// Class "R4".
    pub const CLASS_RSA4096: u16 = 0x3452;

    /// Class "S2".
    pub const CLASS_SHA2_256: u16 = 0x3253;

    /// Class "S3".
    pub const CLASS_SHA2_384: u16 = 0x3353;

    /// Class "S5".
    pub const CLASS_SHA2_512: u16 = 0x3553;


    /// Operation "KG" of class "P2".
    #[allow(non_snake_case)]
    pub fn ECDSA_P256_KEYGEN() -> (r: Opcode)
        ensures
            r.spec_class() == Self::CLASS_ECDSA_P256,
            r.spec_op() == 0x474b,
    {
        Self::new(Self::CLASS_ECDSA_P256, [0x4b, 0x47])
    }

    /// Operation "SI" of class "P2".
    #[allow(non_snake_case)]
    pub fn ECDSA_P256_SIGN() -> (r: Opcode)
        ensures
            r.spec_class() == Self::CLASS_ECDSA_P256,
            r.spec_op() == 0x4953,
    {
        Self::new(Self::CLASS_ECDSA_P256, [0x53, 0x49])
    }

    /// Operation "VE" of class "P2".
    #[allow(non_snake_case)]
    pub fn ECDSA_P256_VERIFY() -> (r: Opcode)
        ensures
            r.spec_class() == Self::CLASS_ECDSA_P256,
            r.spec_op() == 0x4556,
    {
        Self::new(Self::CLASS_ECDSA_P256, [0x56, 0x45])
    }

    /// Operation "KG" of class "E2".
    #[allow(non_snake_case)]
    pub fn ECDH_P256_KEYGEN() -> (r: Opcode)
        ensures
            r.spec_class() == Self::CLASS_ECDH_P256,
            r.spec_op() == 0x474b,
    {
        Self::new(Self::CLASS_ECDH_P256, [0x4b, 0x47])
    }

    /// Operation "AG" of class "E2".
    #[allow(non_snake_case)]
    pub fn ECDH_P256_KEY_AGREEMENT() -> (r: Opcode)
        ensures
            r.spec_class() == Self::CLASS_ECDH_P256,
            r.spec_op() == 0x4741,
    {
        Self::new(Self::CLASS_ECDH_P256, [0x41, 0x47])
    }

    /// Operation "KG" of class "DI".
    #[allow(non_snake_case)]
    pub fn DICE_P256_KEYGEN() -> (r: Opcode)
        ensures
            r.spec_class() == Self::CLASS_DICE_P256,
            r.spec_op() == 0x474b,
    {
        Self::new(Self::CLASS_DICE_P256, [0x4b, 0x47])
    }

    /// Operation "SI" of class "DI".
    #[allow(non_snake_case)]
    pub fn DICE_P256_SIGN() -> (r: Opcode)
        ensures
            r.spec_class() == Self::CLASS_DICE_P256,
            r.spec_op() == 0x4953,
    {
        Self::new(Self::CLASS_DICE_P256, [0x53, 0x49])
    }

    /// Operation "KG" of class "P3".
    #[allow(non_snake_case)]
    pub fn ECDSA_P384_KEYGEN() -> (r: Opcode)
        ensures
            r.spec_class() == Self::CLASS_ECDSA_P384,
            r.spec_op() == 0x474b,
    {
        Self::new(Self::CLASS_ECDSA_P384, [0x4b, 0x47])
    }

    /// Operation "SI" of class "P3".
    #[allow(non_snake_case)]
    pub fn ECDSA_P384_SIGN() -> (r: Opcode)
        ensures
            r.spec_class() == Self::CLASS_ECDSA_P384,
            r.spec_op() == 0x4953,
    {
        Self::new(Self::CLASS_ECDSA_P384, [0x53, 0x49])
    }

    /// Operation "VE" of class "P3".
    #[allow(non_snake_case)]
    pub fn ECDSA_P384_VERIFY() -> (r: Opcode)
        ensures
            r.spec_class() == Self::CLASS_ECDSA_P384,
            r.spec_op() == 0x4556,
    {
        Self::new(Self::CLASS_ECDSA_P384, [0x56, 0x45])
    }

    /// Operation "KG" of class "E3".
    #[allow(non_snake_case)]
    pub fn ECDH_P384_KEYGEN() -> (r: Opcode)
        ensures
            r.spec_class() == Self::CLASS_ECDH_P384,
            r.spec_op() == 0x474b,
    {
        Self::new(Self::CLASS_ECDH_P384, [0x4b, 0x47])
    }

    /// Operation "AG" of class "E3".
    #[allow(non_snake_case)]
    pub fn ECDH_P384_KEY_AGREEMENT() -> (r: Opcode)
        ensures
            r.spec_class() == Self::CLASS_ECDH_P384,
            r.spec_op() == 0x4741,
    {
        Self::new(Self::CLASS_ECDH_P384, [0x41, 0x47])
    }

    /// Operation "KG" of class "Ed".
    #[allow(non_snake_case)]
    pub fn ED25519_KEYGEN() -> (r: Opcode)
        ensures
            r.spec_class() == Self::CLASS_ED25519,
            r.spec_op() == 0x474b,
    {
        Self::new(Self::CLASS_ED25519, [0x4b, 0x47])
    }

    /// Operation "SI" of class "Ed".
    #[allow(non_snake_case)]
    pub fn ED25519_SIGN() -> (r: Opcode)
        ensures
            r.spec_class() == Self::CLASS_ED25519,
            r.spec_op() == 0x4953,
    {
        Self::new(Self::CLASS_ED25519, [0x53, 0x49])
    }

    /// Operation "VE" of class "Ed".
    #[allow(non_snake_case)]
    pub fn ED25519_VERIFY() -> (r: Opcode)
        ensures
            r.spec_class() == Self::CLASS_ED25519,
            r.spec_op() == 0x4556,
    {
        Self::new(Self::CLASS_ED25519, [0x56, 0x45])
    }

    /// Operation "KG" of class "X2".
    #[allow(non_snake_case)]
    pub fn X25519_KEYGEN() -> (r: Opcode)
        ensures
            r.spec_class() == Self::CLASS_X25519,
            r.spec_op() == 0x474b,
    {
        Self::new(Self::CLASS_X25519, [0x4b, 0x47])
    }

    /// Operation "AG" of class "X2".
    #[allow(non_snake_case)]
    pub fn X25519_KEY_AGREEMENT() -> (r: Opcode)
        ensures
            r.spec_class() == Self::CLASS_X25519,
            r.spec_op() == 0x4741,
    {
        Self::new(Self::CLASS_X25519, [0x41, 0x47])
    }

    /// Operation "KG" of class "R2".
    #[allow(non_snake_case)]
    pub fn RSA2048_KEYGEN() -> (r: Opcode)
        ensures
            r.spec_class() == Self::CLASS_RSA2048,
            r.spec_op() == 0x474b,
    {
        Self::new(Self::CLASS_RSA2048, [0x4b, 0x47])
    }

    /// Operation "SI" of class "R2".
    #[allow(non_snake_case)]
    pub fn RSA2048_SIGN() -> (r: Opcode)
        ensures
            r.spec_class() == Self::CLASS_RSA2048,
            r.spec_op() == 0x4953,
    {
        Self::new(Self::CLASS_RSA2048, [0x53, 0x49])
    }

    /// Operation "VE" of class "R2".
    #[allow(non_snake_case)]
    pub fn RSA2048_VERIFY() -> (r: Opcode)
        ensures
            r.spec_class() == Self::CLASS_RSA2048,
            r.spec_op() == 0x4556,
    {
        Self::new(Self::CLASS_RSA2048, [0x56, 0x45])
    }

    /// Operation "KG" of class "R3".
    #[allow(non_snake_case)]
    pub fn RSA3072_KEYGEN() -> (r: Opcode)
        ensures
            r.spec_class() == Self::CLASS_RSA3072,
            r.spec_op() == 0x474b,
    {
        Self::new(Self::CLASS_RSA3072, [0x4b, 0x47])
    }

    /// Operation "SI" of class "R3".
    #[allow(non_snake_case)]
    pub fn RSA3072_SIGN() -> (r: Opcode)
        ensures
            r.spec_class() == Self::CLASS_RSA3072,
            r.spec_op() == 0x4953,
    {
        Self::new(Self::CLASS_RSA3072, [0x53, 0x49])
    }

    /// Operation "VE" of class "R3".
    #[allow(non_snake_case)]
    pub fn RSA3072_VERIFY() -> (r: Opcode)
        ensures
            r.spec_class() == Self::CLASS_RSA3072,
            r.spec_op() == 0x4556,
    {
        Self::new(Self::CLASS_RSA3072, [0x56, 0x45])
    }

    /// Operation "KG" of class "R4".
    #[allow(non_snake_case)]
    pub fn RSA4096_KEYGEN() -> (r: Opcode)
        ensures
            r.spec_class() == Self::CLASS_RSA4096,
            r.spec_op() == 0x474b,
    {
        Self::new(Self::CLASS_RSA4096, [0x4b, 0x47])
    }

    /// Operation "SI" of class "R4".
    #[allow(non_snake_case)]
    pub fn RSA4096_SIGN() -> (r: Opcode)
        ensures
            r.spec_class() == Self::CLASS_RSA4096,
            r.spec_op() == 0x4953,
    {
        Self::new(Self::CLASS_RSA4096, [0x53, 0x49])
    }

    /// Operation "VE" of class "R4".
    #[allow(non_snake_case)]
    pub fn RSA4096_VERIFY() -> (r: Opcode)
        ensures
            r.spec_class() == Self::CLASS_RSA4096,
            r.spec_op() == 0x4556,
    {
        Self::new(Self::CLASS_RSA4096, [0x56, 0x45])
    }

    /// Operation "IN" of class "S2".
    #[allow(non_snake_case)]
    pub fn SHA2_256_INIT() -> (r: Opcode)
        ensures
            r.spec_class() == Self::CLASS_SHA2_256,
            r.spec_op() == 0x4e49,
    {
        Self::new(Self::CLASS_SHA2_256, [0x49, 0x4e])
    }

    /// Operation "UP" of class "S2".
    #[allow(non_snake_case)]
    pub fn SHA2_256_UPDATE() -> (r: Opcode)
        ensures
            r.spec_class() == Self::CLASS_SHA2_256,
            r.spec_op() == 0x5055,
    {
        Self::new(Self::CLASS_SHA2_256, [0x55, 0x50])
    }

    /// Operation "FI" of class "S2".
    #[allow(non_snake_case)]
    pub fn SHA2_256_FINAL() -> (r: Opcode)
        ensures
            r.spec_class() == Self::CLASS_SHA2_256,
            r.spec_op() == 0x4946,
    {
        Self::new(Self::CLASS_SHA2_256, [0x46, 0x49])
    }

    /// Operation "IN" of class "S3".
    #[allow(non_snake_case)]
    pub fn SHA2_384_INIT() -> (r: Opcode)
        ensures
            r.spec_class() == Self::CLASS_SHA2_384,
            r.spec_op() == 0x4e49,
    {
        Self::new(Self::CLASS_SHA2_384, [0x49, 0x4e])
    }

    /// Operation "UP" of class "S3".
    #[allow(non_snake_case)]
    pub fn SHA2_384_UPDATE() -> (r: Opcode)
        ensures
            r.spec_class() == Self::CLASS_SHA2_384,
            r.spec_op() == 0x5055,
    {
        Self::new(Self::CLASS_SHA2_384, [0x55, 0x50])
    }

    /// Operation "FI" of class "S3".
    #[allow(non_snake_case)]
    pub fn SHA2_384_FINAL() -> (r: Opcode)
        ensures
            r.spec_class() == Self::CLASS_SHA2_384,
            r.spec_op() == 0x4946,
    {
        Self::new(Self::CLASS_SHA2_384, [0x46, 0x49])
    }

    /// Operation "IN" of class "S5".
    #[allow(non_snake_case)]
    pub fn SHA2_512_INIT() -> (r: Opcode)
        ensures
            r.spec_class() == Self::CLASS_SHA2_512,
            r.spec_op() == 0x4e49,
    {
        Self::new(Self::CLASS_SHA2_512, [0x49, 0x4e])
    }

    /// Operation "UP" of class "S5".
    #[allow(non_snake_case)]
    pub fn SHA2_512_UPDATE() -> (r: Opcode)
        ensures
            r.spec_class() == Self::CLASS_SHA2_512,
            r.spec_op() == 0x5055,
    {
        Self::new(Self::CLASS_SHA2_512, [0x55, 0x50])
    }

    /// Operation "FI" of class "S5".
    #[allow(non_snake_case)]
    pub fn SHA2_512_FINAL() -> (r: Opcode)
        ensures
            r.spec_class() == Self::CLASS_SHA2_512,
            r.spec_op() == 0x4946,
    {
        Self::new(Self::CLASS_SHA2_512, [0x46, 0x49])
    }

}

} // verus!
