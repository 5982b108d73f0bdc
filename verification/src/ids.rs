//! Account identities: 32-byte public keys, and the fixed identity of the
//! external asset program that every invocation must be addressed to.

use vstd::prelude::*;

verus! {

/// The length, in bytes, of every on-chain account identity.
pub const ID_LEN: usize = 32;

/// The identity of an on-chain account: its 32-byte public key.
#[derive(Debug)]
pub struct AccountId {
    pub bytes: Vec<u8>,
}

impl View for AccountId {
    type V = Seq<u8>;

    open spec fn view(&self) -> Seq<u8> {
        self.bytes@
    }
}

impl AccountId {
    /// A well-formed identity holds exactly `ID_LEN` bytes.
    pub open spec fn wf(self) -> bool {
        self.bytes@.len() == ID_LEN
    }

    /// Wraps raw bytes as an identity; rejects any length other than `ID_LEN`.
    pub fn from_bytes(bytes: Vec<u8>) -> (r: Option<AccountId>)
        ensures
            r is Some <==> bytes@.len() == ID_LEN,
            r matches Some(id) ==> id.wf() && id@ == bytes@,
    {
        if bytes.len() == ID_LEN {
            Some(AccountId { bytes })
        } else {
            None
        }
    }

    /// Byte-for-byte equality of two identities.
    pub fn eq_id(&self, other: &AccountId) -> (r: bool)
        ensures
            r == (self@ == other@),
    {
        if self.bytes.len() != other.bytes.len() {
            return false;
        }
        let n = self.bytes.len();
        let mut i: usize = 0;
        while i < n
            invariant
                n == self.bytes@.len(),
                n == other.bytes@.len(),
                i <= n,
                forall|j: int| 0 <= j < i ==> self.bytes@[j] == other.bytes@[j],
            decreases n - i,
        {
            if self.bytes[i] != other.bytes[i] {
                return false;
            }
            i = i + 1;
        }
        proof {
            assert(self@ =~= other@);
        }
        true
    }

    /// An owned copy of this identity.
    pub fn dup(&self) -> (r: AccountId)
        ensures
            r@ == self@,
    {
        let mut bytes: Vec<u8> = Vec::new();
        let n = self.bytes.len();
        let mut i: usize = 0;
        while i < n
            invariant
                n == self.bytes@.len(),
                i <= n,
                bytes@ =~= self.bytes@.take(i as int),
            decreases n - i,
        {
            bytes.push(self.bytes[i]);
            i = i + 1;
        }
        proof {
            assert(bytes@ =~= self.bytes@);
        }
        AccountId { bytes }
    }
}

/// The bytes of the fixed, globally known identity of the external asset
/// program: every outbound invocation must be addressed to it.
pub open spec fn core_program_id_seq() -> Seq<u8> {
    seq![
        175u8, 84u8, 171u8, 16u8, 189u8, 151u8, 165u8, 66u8,
        160u8, 158u8, 247u8, 179u8, 152u8, 137u8, 221u8, 12u8,
        211u8, 148u8, 164u8, 204u8, 233u8, 223u8, 166u8, 205u8,
        201u8, 126u8, 190u8, 45u8, 35u8, 91u8, 167u8, 72u8,
    ]
}

/// The fixed identity of the external asset program, as a value.
pub fn core_program_id() -> (r: AccountId)
    ensures
        r@ == core_program_id_seq(),
        r.wf(),
{
    let mut bytes: Vec<u8> = Vec::new();
    bytes.push(175u8);
    bytes.push(84u8);
    bytes.push(171u8);
    bytes.push(16u8);
    bytes.push(189u8);
    bytes.push(151u8);
    bytes.push(165u8);
    bytes.push(66u8);
    bytes.push(160u8);
    bytes.push(158u8);
    bytes.push(247u8);
    bytes.push(179u8);
    bytes.push(152u8);
    bytes.push(137u8);
    bytes.push(221u8);
    bytes.push(12u8);
    bytes.push(211u8);
    bytes.push(148u8);
    bytes.push(164u8);
    bytes.push(204u8);
    bytes.push(233u8);
    bytes.push(223u8);
    bytes.push(166u8);
    bytes.push(205u8);
    bytes.push(201u8);
    bytes.push(126u8);
    bytes.push(190u8);
    bytes.push(45u8);
    bytes.push(35u8);
    bytes.push(91u8);
    bytes.push(167u8);
    bytes.push(72u8);
    proof {
        assert(bytes@ =~= core_program_id_seq());
    }
    AccountId { bytes }
}

} // verus!
