use vstd::prelude::*;

verus! {

/// The most bytes that a principal can have.
pub const MAX_PRINCIPAL_BYTES: usize = 29;

/// A principal (canister or user identity), held as its significant bytes.
///
/// The bytes past `len` are always zero, so two principals with the same
/// significant bytes are the same value.
#[derive(Clone, Copy, Debug, PartialEq, Eq)]
pub struct PrincipalId {
    len: u8,
    bytes: [u8; 29],
}

impl View for PrincipalId {
    type V = Seq<u8>;

    closed spec fn view(&self) -> Seq<u8> {
        self.bytes@.take(self.len as int)
    }
}

/// The textual form of a principal with the given bytes, as `candid` renders it
/// (CRC32 check sum and base32, grouped by dashes).
pub uninterp spec fn principal_text(bytes: Seq<u8>) -> Seq<char>;

/// What `candid` parses the given text into: the bytes of a principal, or nothing.
pub uninterp spec fn principal_parse(text: Seq<char>) -> Option<Seq<u8>>;

/// Renders a principal with `candid::Principal::from_slice` and `to_text`.
/// Claimed: the result is the named rendering of the bytes.
#[verifier::external_body]
fn candid_principal_to_text(bytes: &[u8]) -> (text: String)
    requires
        bytes@.len() <= MAX_PRINCIPAL_BYTES,
    ensures
        text@ == principal_text(bytes@),
{
    candid::Principal::from_slice(bytes).to_text()
}

/// Parses a principal with `candid::Principal::from_text`.
/// Claimed: the result is the named parse of the text, and a parsed principal
/// has at most 29 bytes (`from_text` refuses longer data).
#[verifier::external_body]
fn candid_principal_from_text(text: &str) -> (bytes: Option<Vec<u8>>)
    ensures
        bytes matches Some(b) ==> b@.len() <= MAX_PRINCIPAL_BYTES,
        match bytes {
            Some(b) => principal_parse(text@) == Some(b@),
            None => principal_parse(text@) is None,
        },
{
    match candid::Principal::from_text(text) {
        Ok(p) => Some(p.as_slice().to_vec()),
        Err(_) => None,
    }
}

impl PrincipalId {
    #[verifier::type_invariant]
    spec fn inv(self) -> bool {
        &&& self.len <= 29
        &&& forall|i: int| self.len <= i < 29 ==> #[trigger] self.bytes[i] == 0
    }

    /// The principal with the given significant bytes, or `None` when there are
    /// more than 29 of them.
    pub fn from_slice(slice: &[u8]) -> (res: Option<PrincipalId>)
        ensures
            match res {
                Some(p) => slice@.len() <= MAX_PRINCIPAL_BYTES && p@ == slice@,
                None => slice@.len() > MAX_PRINCIPAL_BYTES,
            },
    {
        if slice.len() > MAX_PRINCIPAL_BYTES {
            return None;
        }
        let mut bytes = [0u8; 29];
        let mut i: usize = 0;
        while i < slice.len()
            invariant
                i <= slice@.len() <= 29,
                forall|j: int| 0 <= j < i ==> bytes[j] == slice@[j],
                forall|j: int| i <= j < 29 ==> bytes[j] == 0,
            decreases slice@.len() - i,
        {
            bytes[i] = slice[i];
            i = i + 1;
        }
        let p = PrincipalId { len: slice.len() as u8, bytes };
        assert(p@ =~= slice@);
        Some(p)
    }

    /// The principal with the given fixed bytes (at most 29 of them).
    pub fn from_bytes(bytes: &Vec<u8>) -> (p: PrincipalId)
        requires
            bytes@.len() <= MAX_PRINCIPAL_BYTES,
        ensures
            p@ == bytes@,
    {
        match Self::from_slice(bytes.as_slice()) {
            Some(p) => p,
            None => PrincipalId { len: 0, bytes: [0u8; 29] },
        }
    }

    /// The significant bytes.
    pub fn as_bytes(&self) -> (v: Vec<u8>)
        ensures
            v@ == self@,
            v@.len() <= MAX_PRINCIPAL_BYTES,
    {
        proof {
            use_type_invariant(self);
        }
        let mut v: Vec<u8> = Vec::new();
        let mut i: usize = 0;
        while i < self.len as usize
            invariant
                self.len <= 29,
                i <= self.len,
                v@ =~= self.bytes@.take(i as int),
            decreases self.len - i,
        {
            v.push(self.bytes[i]);
            i = i + 1;
        }
        v
    }

    /// Whether two principals are the same.
    pub fn same_as(&self, other: &PrincipalId) -> (res: bool)
        ensures
            res == (self@ == other@),
    {
        proof {
            use_type_invariant(self);
            use_type_invariant(other);
        }
        if self.len != other.len {
            assert(self@.len() != other@.len());
            return false;
        }
        let mut i: usize = 0;
        while i < self.len as usize
            invariant
                self.len == other.len <= 29,
                i <= self.len,
                forall|j: int| 0 <= j < i ==> self.bytes[j] == other.bytes[j],
            decreases self.len - i,
        {
            if self.bytes[i] != other.bytes[i] {
                assert(self@[i as int] != other@[i as int]);
                return false;
            }
            i = i + 1;
        }
        assert(self@ =~= other@);
        true
    }

    /// The textual form, e.g. `ryjl3-tyaaa-aaaaa-aaaba-cai`.
    pub fn to_text(&self) -> (text: String)
        ensures
            text@ == principal_text(self@),
    {
        let bytes = self.as_bytes();
        candid_principal_to_text(bytes.as_slice())
    }

    /// Parses the textual form of a principal.
    pub fn from_text(text: &str) -> (res: Option<PrincipalId>)
        ensures
            match res {
                Some(p) => principal_parse(text@) == Some(p@),
                None => principal_parse(text@) is None,
            },
    {
        match candid_principal_from_text(text) {
            Some(bytes) => Some(Self::from_bytes(&bytes)),
            None => None,
        }
    }
}

/// The bytes of the ICP ledger canister, `ryjl3-tyaaa-aaaaa-aaaba-cai`.
pub open spec fn icp_ledger_bytes() -> Seq<u8> {
    seq![0u8, 0, 0, 0, 0, 0, 0, 2, 1, 1]
}

/// The bytes of the KongSwap backend canister, `2ipq2-uqaaa-aaaar-qailq-cai`.
pub open spec fn kong_backend_bytes() -> Seq<u8> {
    seq![0u8, 0, 0, 0, 2, 48, 2, 23, 1, 1]
}

/// The ICP ledger canister on the mainnet.
pub fn icp_ledger_canister_id() -> (p: PrincipalId)
    ensures
        p@ == icp_ledger_bytes(),
{
    let v: Vec<u8> = vec![0u8, 0, 0, 0, 0, 0, 0, 2, 1, 1];
    assert(v@ =~= icp_ledger_bytes());
    PrincipalId::from_bytes(&v)
}

/// The KongSwap backend canister on the mainnet.
pub fn kong_backend_canister_id() -> (p: PrincipalId)
    ensures
        p@ == kong_backend_bytes(),
{
    let v: Vec<u8> = vec![0u8, 0, 0, 0, 2, 48, 2, 23, 1, 1];
    assert(v@ =~= kong_backend_bytes());
    PrincipalId::from_bytes(&v)
}

} // verus!
