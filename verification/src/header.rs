//! The header of a light client update for a rollup, in the form it travels
//! in, where every part may be absent and every hash is a byte string of any
//! length, and in the form it is used in, where every part is there and every
//! hash has its length.

use vstd::prelude::*;

use crate::view::option_view;

verus! {

/// The length of a hash and of a storage word, in bytes.
pub const WORD: usize = 32;

/// A part that had to be there and is not, by its name.
#[derive(Clone, Copy, Debug, PartialEq, Eq)]
pub struct MissingField(pub &'static str);

/// A byte string of another length than it must have.
#[derive(Clone, Copy, PartialEq, Eq, Structural, Debug)]
pub struct InvalidLength {
    pub expected: usize,
    pub found: usize,
}

/// Thirty-two bytes: a hash, or a word of storage.
#[derive(Clone, Copy, Debug, PartialEq, Eq)]
pub struct H256(pub [u8; 32]);

impl View for H256 {
    type V = Seq<u8>;

    open spec fn view(&self) -> Seq<u8> {
        self.0@
    }
}

/// The word that the bytes are, where there are thirty-two of them.
pub open spec fn word_of(bytes: Seq<u8>) -> Result<Seq<u8>, InvalidLength> {
    if bytes.len() == WORD {
        Ok(bytes)
    } else {
        Err(InvalidLength { expected: WORD, found: bytes.len() as usize })
    }
}

impl H256 {
    /// The word that the bytes are; an error where there are not thirty-two
    /// of them.
    pub fn from_bytes(bytes: &Vec<u8>) -> (r: Result<H256, InvalidLength>)
        ensures
            match r {
                Ok(word) => word_of(bytes@) == Ok::<Seq<u8>, InvalidLength>(word@),
                Err(e) => word_of(bytes@) == Err::<Seq<u8>, InvalidLength>(e),
            },
    {
        if bytes.len() != WORD {
            return Err(InvalidLength { expected: WORD, found: bytes.len() });
        }
        let mut word = [0u8; 32];
        let mut i: usize = 0;
        while i < WORD
            invariant
                i <= WORD,
                bytes@.len() == WORD,
                forall|j: int| 0 <= j < i ==> word@[j] == bytes@[j],
            decreases WORD - i,
        {
            word[i] = bytes[i];
            i = i + 1;
        }
        assert(word@ =~= bytes@);
        Ok(H256(word))
    }

    /// The bytes of the word.
    pub fn to_bytes(&self) -> (r: Vec<u8>)
        ensures
            r@ == self@,
            word_of(r@) == Ok::<Seq<u8>, InvalidLength>(self@),
    {
        let mut bytes: Vec<u8> = Vec::new();
        let mut i: usize = 0;
        while i < WORD
            invariant
                i <= WORD,
                self@.len() == WORD,
                bytes@ == self@.take(i as int),
            decreases WORD - i,
        {
            bytes.push(self.0[i]);
            assert(self@.take(i as int + 1) =~= self@.take(i as int).push(self@[i as int]));
            i = i + 1;
        }
        assert(self@.take(WORD as int) =~= self@);
        bytes
    }
}

/// The height of a chain.
#[derive(Clone, Copy, PartialEq, Eq, Structural, Debug)]
pub struct Height {
    pub revision_number: u64,
    pub revision_height: u64,
}

/// The height of a chain, as it travels.
#[derive(Clone, Copy, PartialEq, Eq, Structural, Debug)]
pub struct RawHeight {
    pub revision_number: u64,
    pub revision_height: u64,
}

/// The byte strings of a list, in order.
pub open spec fn nodes(list: Vec<Vec<u8>>) -> Seq<Seq<u8>> {
    list@.map_values(|node: Vec<u8>| node@)
}

/// The proof of an account: the root of its storage and the nodes that lead
/// to it.
#[derive(Debug, PartialEq, Eq)]
pub struct AccountProof {
    pub storage_root: H256,
    pub proof: Vec<Vec<u8>>,
}

#[derive(Debug, PartialEq, Eq)]
pub struct RawAccountProof {
    pub storage_root: Vec<u8>,
    pub proof: Vec<Vec<u8>>,
}

pub struct AccountProofView {
    pub storage_root: Seq<u8>,
    pub proof: Seq<Seq<u8>>,
}

impl View for AccountProof {
    type V = AccountProofView;

    open spec fn view(&self) -> AccountProofView {
        AccountProofView { storage_root: self.storage_root@, proof: nodes(self.proof) }
    }
}

impl View for RawAccountProof {
    type V = AccountProofView;

    open spec fn view(&self) -> AccountProofView {
        AccountProofView { storage_root: self.storage_root@, proof: nodes(self.proof) }
    }
}

#[derive(Clone, Copy, PartialEq, Eq, Structural, Debug)]
pub enum TryFromAccountProofError {
    StorageRoot(InvalidLength),
}

/// The proof of an account that its form of travel holds.
pub open spec fn account_proof_of(raw: AccountProofView) -> Result<AccountProofView, TryFromAccountProofError> {
    match word_of(raw.storage_root) {
        Ok(_) => Ok(raw),
        Err(e) => Err(TryFromAccountProofError::StorageRoot(e)),
    }
}

impl AccountProof {
    pub fn try_from(value: RawAccountProof) -> (r: Result<Self, TryFromAccountProofError>)
        ensures
            match r {
                Ok(proof) => account_proof_of(value@) == Ok::<
                    AccountProofView,
                    TryFromAccountProofError,
                >(proof@),
                Err(e) => account_proof_of(value@) == Err::<
                    AccountProofView,
                    TryFromAccountProofError,
                >(e),
            },
    {
        match H256::from_bytes(&value.storage_root) {
            Ok(storage_root) => Ok(AccountProof { storage_root, proof: value.proof }),
            Err(e) => Err(TryFromAccountProofError::StorageRoot(e)),
        }
    }
}

impl RawAccountProof {
    pub fn from(value: AccountProof) -> (r: Self)
        ensures
            r@ == value@,
            account_proof_of(r@) == Ok::<AccountProofView, TryFromAccountProofError>(value@),
    {
        RawAccountProof { storage_root: value.storage_root.to_bytes(), proof: value.proof }
    }
}

/// The proof of a word of storage: where it is, what it is, and the nodes
/// that lead to it.
#[derive(Debug, PartialEq, Eq)]
pub struct StorageProof {
    pub key: H256,
    pub value: H256,
    pub proof: Vec<Vec<u8>>,
}

#[derive(Debug, PartialEq, Eq)]
pub struct RawStorageProof {
    pub key: Vec<u8>,
    pub value: Vec<u8>,
    pub proof: Vec<Vec<u8>>,
}

pub struct StorageProofView {
    pub key: Seq<u8>,
    pub value: Seq<u8>,
    pub proof: Seq<Seq<u8>>,
}

impl View for StorageProof {
    type V = StorageProofView;

    open spec fn view(&self) -> StorageProofView {
        StorageProofView { key: self.key@, value: self.value@, proof: nodes(self.proof) }
    }
}

impl View for RawStorageProof {
    type V = StorageProofView;

    open spec fn view(&self) -> StorageProofView {
        StorageProofView { key: self.key@, value: self.value@, proof: nodes(self.proof) }
    }
}

#[derive(Clone, Copy, PartialEq, Eq, Structural, Debug)]
pub enum TryFromStorageProofError {
    Key(InvalidLength),
    Value(InvalidLength),
}

/// The proof of a word of storage that its form of travel holds. The key
/// is looked at before the value.
pub open spec fn storage_proof_of(raw: StorageProofView) -> Result<StorageProofView, TryFromStorageProofError> {
    match word_of(raw.key) {
        Err(e) => Err(TryFromStorageProofError::Key(e)),
        Ok(_) => match word_of(raw.value) {
            Err(e) => Err(TryFromStorageProofError::Value(e)),
            Ok(_) => Ok(raw),
        },
    }
}

impl StorageProof {
    pub fn try_from(value: RawStorageProof) -> (r: Result<Self, TryFromStorageProofError>)
        ensures
            match r {
                Ok(proof) => storage_proof_of(value@) == Ok::<
                    StorageProofView,
                    TryFromStorageProofError,
                >(proof@),
                Err(e) => storage_proof_of(value@) == Err::<
                    StorageProofView,
                    TryFromStorageProofError,
                >(e),
            },
    {
        let key = match H256::from_bytes(&value.key) {
            Ok(key) => key,
            Err(e) => {
                return Err(TryFromStorageProofError::Key(e));
            },
        };
        let word = match H256::from_bytes(&value.value) {
            Ok(word) => word,
            Err(e) => {
                return Err(TryFromStorageProofError::Value(e));
            },
        };
        Ok(StorageProof { key, value: word, proof: value.proof })
    }
}

impl RawStorageProof {
    pub fn from(value: StorageProof) -> (r: Self)
        ensures
            r@ == value@,
            storage_proof_of(r@) == Ok::<StorageProofView, TryFromStorageProofError>(value@),
    {
        RawStorageProof {
            key: value.key.to_bytes(),
            value: value.value.to_bytes(),
            proof: value.proof,
        }
    }
}

/// The proof that a leaf is in a sparse tree: the key of the leaf, its
/// place, its value, and the nodes that lead to it.
#[derive(Debug, PartialEq, Eq)]
pub struct InclusionProof {
    pub key: H256,
    pub leaf_index: u64,
    pub value: Vec<u8>,
    pub proof_related_nodes: Vec<Vec<u8>>,
}

#[derive(Debug, PartialEq, Eq)]
pub struct RawInclusionProof {
    pub key: Vec<u8>,
    pub leaf_index: u64,
    pub value: Vec<u8>,
    pub proof_related_nodes: Vec<Vec<u8>>,
}

pub struct InclusionProofView {
    pub key: Seq<u8>,
    pub leaf_index: u64,
    pub value: Seq<u8>,
    pub proof_related_nodes: Seq<Seq<u8>>,
}

impl View for InclusionProof {
    type V = InclusionProofView;

    open spec fn view(&self) -> InclusionProofView {
        InclusionProofView {
            key: self.key@,
            leaf_index: self.leaf_index,
            value: self.value@,
            proof_related_nodes: nodes(self.proof_related_nodes),
        }
    }
}

impl View for RawInclusionProof {
    type V = InclusionProofView;

    open spec fn view(&self) -> InclusionProofView {
        InclusionProofView {
            key: self.key@,
            leaf_index: self.leaf_index,
            value: self.value@,
            proof_related_nodes: nodes(self.proof_related_nodes),
        }
    }
}

#[derive(Clone, Copy, PartialEq, Eq, Structural, Debug)]
pub enum TryFromMerkleProofError {
    Key(InvalidLength),
}

/// The proof of inclusion that its form of travel holds.
pub open spec fn inclusion_proof_of(raw: InclusionProofView) -> Result<InclusionProofView, TryFromMerkleProofError> {
    match word_of(raw.key) {
        Ok(_) => Ok(raw),
        Err(e) => Err(TryFromMerkleProofError::Key(e)),
    }
}

impl InclusionProof {
    pub fn try_from(value: RawInclusionProof) -> (r: Result<Self, TryFromMerkleProofError>)
        ensures
            match r {
                Ok(proof) => inclusion_proof_of(value@) == Ok::<
                    InclusionProofView,
                    TryFromMerkleProofError,
                >(proof@),
                Err(e) => inclusion_proof_of(value@) == Err::<
                    InclusionProofView,
                    TryFromMerkleProofError,
                >(e),
            },
    {
        match H256::from_bytes(&value.key) {
            Ok(key) => Ok(
                InclusionProof {
                    key,
                    leaf_index: value.leaf_index,
                    value: value.value,
                    proof_related_nodes: value.proof_related_nodes,
                },
            ),
            Err(e) => Err(TryFromMerkleProofError::Key(e)),
        }
    }
}

impl RawInclusionProof {
    pub fn from(value: InclusionProof) -> (r: Self)
        ensures
            r@ == value@,
            inclusion_proof_of(r@) == Ok::<InclusionProofView, TryFromMerkleProofError>(value@),
    {
        RawInclusionProof {
            key: value.key.to_bytes(),
            leaf_index: value.leaf_index,
            value: value.value,
            proof_related_nodes: value.proof_related_nodes,
        }
    }
}

/// The header of an update: the height of the first layer it was proved at,
/// the proof of the rollup contract there, and the proofs of the second
/// layer's time, block number and state root in that contract, and of the
/// contract of this protocol in that state.
#[derive(Debug, PartialEq, Eq)]
pub struct Header {
    pub l1_height: Height,
    pub l1_rollup_contract_proof: AccountProof,
    pub l2_timestamp_proof: StorageProof,
    pub l2_block_number_proof: StorageProof,
    pub l2_state_root_proof: StorageProof,
    pub l2_ibc_contract_proof: InclusionProof,
}

/// The header as it travels: every part may be absent.
#[derive(Debug, PartialEq, Eq)]
pub struct RawHeader {
    pub l1_height: Option<RawHeight>,
    pub l1_rollup_contract_proof: Option<RawAccountProof>,
    pub l2_timestamp_proof: Option<RawStorageProof>,
    pub l2_block_number_proof: Option<RawStorageProof>,
    pub l2_state_root_proof: Option<RawStorageProof>,
    pub l2_ibc_contract_proof: Option<RawInclusionProof>,
}

pub struct HeaderView {
    pub l1_height: Height,
    pub l1_rollup_contract_proof: AccountProofView,
    pub l2_timestamp_proof: StorageProofView,
    pub l2_block_number_proof: StorageProofView,
    pub l2_state_root_proof: StorageProofView,
    pub l2_ibc_contract_proof: InclusionProofView,
}

pub struct RawHeaderView {
    pub l1_height: Option<RawHeight>,
    pub l1_rollup_contract_proof: Option<AccountProofView>,
    pub l2_timestamp_proof: Option<StorageProofView>,
    pub l2_block_number_proof: Option<StorageProofView>,
    pub l2_state_root_proof: Option<StorageProofView>,
    pub l2_ibc_contract_proof: Option<InclusionProofView>,
}

impl View for Header {
    type V = HeaderView;

    open spec fn view(&self) -> HeaderView {
        HeaderView {
            l1_height: self.l1_height,
            l1_rollup_contract_proof: self.l1_rollup_contract_proof@,
            l2_timestamp_proof: self.l2_timestamp_proof@,
            l2_block_number_proof: self.l2_block_number_proof@,
            l2_state_root_proof: self.l2_state_root_proof@,
            l2_ibc_contract_proof: self.l2_ibc_contract_proof@,
        }
    }
}

impl View for RawHeader {
    type V = RawHeaderView;

    open spec fn view(&self) -> RawHeaderView {
        RawHeaderView {
            l1_height: self.l1_height,
            l1_rollup_contract_proof: option_view(self.l1_rollup_contract_proof),
            l2_timestamp_proof: option_view(self.l2_timestamp_proof),
            l2_block_number_proof: option_view(self.l2_block_number_proof),
            l2_state_root_proof: option_view(self.l2_state_root_proof),
            l2_ibc_contract_proof: option_view(self.l2_ibc_contract_proof),
        }
    }
}

/// Why a header as it travels is no header.
#[derive(Clone, Copy, Debug, PartialEq, Eq)]
pub enum TryFromHeaderError {
    MissingField(MissingField),
    L1RollupContractProof(TryFromAccountProofError),
    L2BlockNumber(InvalidLength),
    L2BlockNumberProof(TryFromStorageProofError),
    L2StateRoot(InvalidLength),
    L2StateRootProof(TryFromStorageProofError),
    L2Timestamp(InvalidLength),
    L2TimestampProof(TryFromStorageProofError),
    L2IbcContractProof(TryFromMerkleProofError),
}

/// That the part of the given name is not there.
pub open spec fn missing(name: &'static str) -> TryFromHeaderError {
    TryFromHeaderError::MissingField(MissingField(name))
}

/// The header that its form of travel holds. The parts are looked at in the
/// order of their fields; the first that is absent, or is not what it must
/// be, gives the error.
pub open spec fn header_of(raw: RawHeaderView) -> Result<HeaderView, TryFromHeaderError> {
    match raw.l1_height {
        None => Err(missing("l1_height")),
        Some(height) => match raw.l1_rollup_contract_proof {
            None => Err(missing("l1_rollup_contract_proof")),
            Some(contract) => match account_proof_of(contract) {
                Err(e) => Err(TryFromHeaderError::L1RollupContractProof(e)),
                Ok(contract) => match raw.l2_timestamp_proof {
                    None => Err(missing("l2_timestamp_proof")),
                    Some(time) => match storage_proof_of(time) {
                        Err(e) => Err(TryFromHeaderError::L2TimestampProof(e)),
                        Ok(time) => match raw.l2_block_number_proof {
                            None => Err(missing("l2_block_number_proof")),
                            Some(number) => match storage_proof_of(number) {
                                Err(e) => Err(TryFromHeaderError::L2BlockNumberProof(e)),
                                Ok(number) => match raw.l2_state_root_proof {
                                    None => Err(missing("l2_state_root_proof")),
                                    Some(root) => match storage_proof_of(root) {
                                        Err(e) => Err(TryFromHeaderError::L2StateRootProof(e)),
                                        Ok(root) => match raw.l2_ibc_contract_proof {
                                            None => Err(missing("l2_ibc_contract_proof")),
                                            Some(ibc) => match inclusion_proof_of(ibc) {
                                                Err(e) => Err(
                                                    TryFromHeaderError::L2IbcContractProof(e),
                                                ),
                                                Ok(ibc) => Ok(
                                                    HeaderView {
                                                        l1_height: Height {
                                                            revision_number: height.revision_number,
                                                            revision_height: height.revision_height,
                                                        },
                                                        l1_rollup_contract_proof: contract,
                                                        l2_timestamp_proof: time,
                                                        l2_block_number_proof: number,
                                                        l2_state_root_proof: root,
                                                        l2_ibc_contract_proof: ibc,
                                                    },
                                                ),
                                            },
                                        },
                                    },
                                },
                            },
                        },
                    },
                },
            },
        },
    }
}

/// The form of travel of a header: every part is there.
pub open spec fn raw_of(header: HeaderView) -> RawHeaderView {
    RawHeaderView {
        l1_height: Some(
            RawHeight {
                revision_number: header.l1_height.revision_number,
                revision_height: header.l1_height.revision_height,
            },
        ),
        l1_rollup_contract_proof: Some(header.l1_rollup_contract_proof),
        l2_timestamp_proof: Some(header.l2_timestamp_proof),
        l2_block_number_proof: Some(header.l2_block_number_proof),
        l2_state_root_proof: Some(header.l2_state_root_proof),
        l2_ibc_contract_proof: Some(header.l2_ibc_contract_proof),
    }
}

impl Height {
    pub fn from(value: RawHeight) -> (r: Self)
        ensures
            r.revision_number == value.revision_number,
            r.revision_height == value.revision_height,
    {
        Height { revision_number: value.revision_number, revision_height: value.revision_height }
    }
}

impl RawHeight {
    pub fn from(value: Height) -> (r: Self)
        ensures
            r.revision_number == value.revision_number,
            r.revision_height == value.revision_height,
    {
        RawHeight {
            revision_number: value.revision_number,
            revision_height: value.revision_height,
        }
    }
}

impl RawHeader {
    /// The header as it travels, with every part there.
    pub fn from(value: Header) -> (r: Self)
        ensures
            r@ == raw_of(value@),
            header_of(r@) == Ok::<HeaderView, TryFromHeaderError>(value@),
    {
        RawHeader {
            l1_height: Some(RawHeight::from(value.l1_height)),
            l1_rollup_contract_proof: Some(RawAccountProof::from(value.l1_rollup_contract_proof)),
            l2_timestamp_proof: Some(RawStorageProof::from(value.l2_timestamp_proof)),
            l2_block_number_proof: Some(RawStorageProof::from(value.l2_block_number_proof)),
            l2_state_root_proof: Some(RawStorageProof::from(value.l2_state_root_proof)),
            l2_ibc_contract_proof: Some(RawInclusionProof::from(value.l2_ibc_contract_proof)),
        }
    }
}

impl Header {
    /// The header that its form of travel holds; else the first part, in the
    /// order of the fields, that is absent or is not what it must be.
    pub fn try_from(value: RawHeader) -> (r: Result<Self, TryFromHeaderError>)
        ensures
            match r {
                Ok(header) => header_of(value@) == Ok::<HeaderView, TryFromHeaderError>(header@),
                Err(e) => header_of(value@) == Err::<HeaderView, TryFromHeaderError>(e),
            },
    {
        let l1_height = match value.l1_height {
            Some(height) => Height::from(height),
            None => {
                return Err(TryFromHeaderError::MissingField(MissingField("l1_height")));
            },
        };
        let l1_rollup_contract_proof = match value.l1_rollup_contract_proof {
            Some(proof) => match AccountProof::try_from(proof) {
                Ok(proof) => proof,
                Err(e) => {
                    return Err(TryFromHeaderError::L1RollupContractProof(e));
                },
            },
            None => {
                return Err(
                    TryFromHeaderError::MissingField(MissingField("l1_rollup_contract_proof")),
                );
            },
        };
        let l2_timestamp_proof = match value.l2_timestamp_proof {
            Some(proof) => match StorageProof::try_from(proof) {
                Ok(proof) => proof,
                Err(e) => {
                    return Err(TryFromHeaderError::L2TimestampProof(e));
                },
            },
            None => {
                return Err(TryFromHeaderError::MissingField(MissingField("l2_timestamp_proof")));
            },
        };
        let l2_block_number_proof = match value.l2_block_number_proof {
            Some(proof) => match StorageProof::try_from(proof) {
                Ok(proof) => proof,
                Err(e) => {
                    return Err(TryFromHeaderError::L2BlockNumberProof(e));
                },
            },
            None => {
                return Err(
                    TryFromHeaderError::MissingField(MissingField("l2_block_number_proof")),
                );
            },
        };
        let l2_state_root_proof = match value.l2_state_root_proof {
            Some(proof) => match StorageProof::try_from(proof) {
                Ok(proof) => proof,
                Err(e) => {
                    return Err(TryFromHeaderError::L2StateRootProof(e));
                },
            },
            None => {
                return Err(TryFromHeaderError::MissingField(MissingField("l2_state_root_proof")));
            },
        };
        let l2_ibc_contract_proof = match value.l2_ibc_contract_proof {
            Some(proof) => match InclusionProof::try_from(proof) {
                Ok(proof) => proof,
                Err(e) => {
                    return Err(TryFromHeaderError::L2IbcContractProof(e));
                },
            },
            None => {
                return Err(
                    TryFromHeaderError::MissingField(MissingField("l2_ibc_contract_proof")),
                );
            },
        };
        Ok(
            Header {
                l1_height,
                l1_rollup_contract_proof,
                l2_timestamp_proof,
                l2_block_number_proof,
                l2_state_root_proof,
                l2_ibc_contract_proof,
            },
        )
    }
}

/// A header comes back from its form of travel.
pub proof fn lemma_header_round_trip(header: Header)
    ensures
        header_of(raw_of(header@)) == Ok::<HeaderView, TryFromHeaderError>(header@),
{
    vstd::array::array_len_matches_n(&header.l1_rollup_contract_proof.storage_root.0);
    vstd::array::array_len_matches_n(&header.l2_timestamp_proof.key.0);
    vstd::array::array_len_matches_n(&header.l2_timestamp_proof.value.0);
    vstd::array::array_len_matches_n(&header.l2_block_number_proof.key.0);
    vstd::array::array_len_matches_n(&header.l2_block_number_proof.value.0);
    vstd::array::array_len_matches_n(&header.l2_state_root_proof.key.0);
    vstd::array::array_len_matches_n(&header.l2_state_root_proof.value.0);
    vstd::array::array_len_matches_n(&header.l2_ibc_contract_proof.key.0);
}

} // verus!
