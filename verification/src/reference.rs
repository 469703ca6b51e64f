//! The reference value, the request that creates one and the handling of
//! the backend's reply.
use crate::selection::{
    resolve_selection, selection_fits, slabs_of, resolution_is, AxisSelection, AxisSlab,
    SelectionError,
};
use vstd::prelude::*;

verus! {

/// Number of bytes in the encoded form of a region reference.
pub const REGION_REF_LEN: usize = 12;

/// The release of the storage backend that the process is linked against.
#[derive(Clone, Copy, Debug, PartialEq, Eq)]
pub struct BackendVersion {
    pub major: u8,
    pub minor: u8,
    pub micro: u8,
}

/// Which of the backend's two layouts a dataset-region reference is
/// created in. The two cannot be mixed within one process.
#[derive(Clone, Copy, Debug, PartialEq, Eq)]
pub enum ReferenceKind {
    /// The only region kind that releases before 1.12.0 know.
    DatasetRegion,
    /// The same layout under the name that releases from 1.12.0 on give it.
    DatasetRegion1,
}

impl BackendVersion {
    /// The release is 1.12.0 or later.
    pub open spec fn has_revised_references(self) -> bool {
        self.major > 1 || (self.major == 1 && self.minor >= 12)
    }
}

/// The reference kind to create region references in, for a backend of the
/// given release. Call it once at startup and keep the answer.
pub fn h5r_dataset_region(version: BackendVersion) -> (kind: ReferenceKind)
    ensures
        kind == (if version.has_revised_references() {
            ReferenceKind::DatasetRegion1
        } else {
            ReferenceKind::DatasetRegion
        }),
{
    if version.major > 1 || (version.major == 1 && version.minor >= 12) {
        ReferenceKind::DatasetRegion1
    } else {
        ReferenceKind::DatasetRegion
    }
}

/// The storage type of a value, as the generic read and write machinery
/// sees it.
#[derive(Clone, Copy, Debug, PartialEq, Eq)]
pub enum TypeDescriptor {
    /// An opaque reference of fixed size, with no inner layout to inspect.
    Reference,
}

/// What is known of an open dataset: the backend's identifier for it, the
/// extent of each axis, and whether the backend still takes the identifier.
#[derive(Clone, Debug, PartialEq, Eq)]
pub struct Dataset {
    pub id: i64,
    pub shape: Vec<u64>,
    pub valid: bool,
}

/// What the backend is asked to do in order to create a region reference.
#[derive(Clone, Debug, PartialEq, Eq)]
pub struct RegionRequest {
    /// Identifier of the object the reference points into.
    pub parent: i64,
    /// Name of the target relative to `parent`.
    pub name: String,
    /// Layout to create the reference in.
    pub kind: ReferenceKind,
    /// Hyperslab to select on a private copy of the parent's dataspace.
    pub slabs: Vec<AxisSlab>,
}

/// What came of a `RegionRequest`.
#[derive(Clone, Debug, PartialEq, Eq)]
pub enum BackendReply {
    /// The backend did not take the dataset's identifier.
    HandleRejected,
    /// The backend refused or failed the request.
    CreateFailed { diagnostic: String },
    /// The backend created the reference and filled in its bytes.
    Created { bytes: [u8; 12] },
}

/// Why no region reference was made.
#[derive(Clone, Debug, PartialEq, Eq)]
pub enum RegionError {
    /// The selection does not fit the dataset.
    Selection(SelectionError),
    /// The dataset is closed or its identifier is not valid.
    HandleInvalid,
    /// The backend refused or failed to create the reference.
    StorageCreateFailed { diagnostic: String },
}

/// A reference to a region of a dataset: opaque bytes that the backend made.
#[derive(Debug)]
pub struct Reference {
    reg_ref: [u8; 12],
}

impl View for Reference {
    type V = Seq<u8>;

    closed spec fn view(&self) -> Seq<u8> {
        self.reg_ref@
    }
}

impl Clone for Reference {
    /// A copy holds the same bytes.
    fn clone(&self) -> (copy: Self)
        ensures
            copy == *self,
    {
        Reference { reg_ref: self.reg_ref }
    }
}

/// The name that stands for the parent object itself.
pub open spec fn self_name() -> Seq<char> {
    seq!['.']
}

/// `r` is the request that has to be made of the backend for a reference
/// to `selection` on `parent`, in the layout `kind`, or the reason why
/// nothing is asked. No request is ever refused for the backend's sake.
pub open spec fn plan_is(
    parent: Dataset,
    selection: Seq<AxisSelection>,
    kind: ReferenceKind,
    r: Result<RegionRequest, RegionError>,
) -> bool {
    match r {
        Ok(request) => {
            &&& parent.valid
            &&& selection_fits(parent.shape@, selection)
            &&& request.parent == parent.id
            &&& request.name@ == self_name()
            &&& request.kind == kind
            &&& request.slabs@ == slabs_of(parent.shape@, selection)
        },
        Err(RegionError::HandleInvalid) => !parent.valid,
        Err(RegionError::Selection(e)) => parent.valid && resolution_is(
            parent.shape@,
            selection,
            Err(e),
        ),
        Err(RegionError::StorageCreateFailed { .. }) => false,
    }
}

/// `r` is what becomes of a request for a reference to `selection` on
/// `parent` once the backend has answered with `reply`: the bytes of the
/// reference, or the error.
pub open spec fn outcome_is(
    parent: Dataset,
    selection: Seq<AxisSelection>,
    reply: BackendReply,
    r: Result<Seq<u8>, RegionError>,
) -> bool {
    match r {
        Ok(bytes) => {
            &&& parent.valid
            &&& selection_fits(parent.shape@, selection)
            &&& reply matches BackendReply::Created { bytes: made }
            &&& bytes == made@
        },
        Err(RegionError::HandleInvalid) => !parent.valid || (selection_fits(
            parent.shape@,
            selection,
        ) && reply is HandleRejected),
        Err(RegionError::Selection(e)) => parent.valid && resolution_is(
            parent.shape@,
            selection,
            Err(e),
        ),
        Err(RegionError::StorageCreateFailed { diagnostic }) => {
            &&& parent.valid
            &&& selection_fits(parent.shape@, selection)
            &&& reply == (BackendReply::CreateFailed { diagnostic })
        },
    }
}

/// `read` is what decoding `bytes` gives: a reference with exactly those
/// bytes where there are as many as a reference has, nothing otherwise.
pub open spec fn decodes_to(bytes: Seq<u8>, read: Option<Reference>) -> bool {
    match read {
        Some(r) => r@ == bytes,
        None => bytes.len() != REGION_REF_LEN,
    }
}

impl Reference {
    /// Works out what the backend has to be asked for a reference to
    /// `slice` on `parent`.
    ///
    /// Nothing is asked of an invalid dataset, nor for a selection that does
    /// not fit: the error says which. Otherwise the request names the
    /// parent itself as the target, by the relative name `.`, together with
    /// the hyperslab that `slice` stands for.
    pub fn plan_region(parent: &Dataset, slice: &Vec<AxisSelection>, kind: ReferenceKind) -> (r:
        Result<RegionRequest, RegionError>)
        ensures
            plan_is(*parent, slice@, kind, r),
            r is Ok <==> parent.valid && selection_fits(parent.shape@, slice@),
    {
        if !parent.valid {
            return Err(RegionError::HandleInvalid);
        }
        match resolve_selection(&parent.shape, slice) {
            Ok(slabs) => {
                let name: String = ".".to_owned();
                proof {
                    reveal_strlit(".");
                    assert(name@ =~= self_name());
                }
                Ok(RegionRequest { parent: parent.id, name, kind, slabs })
            },
            Err(e) => Err(RegionError::Selection(e)),
        }
    }

    /// Makes the reference to `slice` on `parent` out of the backend's
    /// `reply` to the request that `plan_region` gave.
    ///
    /// An invalid dataset and a selection that does not fit are refused
    /// whatever the reply says. Otherwise the reference holds the bytes that
    /// the backend made, unchanged, or the error tells the backend's failure.
    pub fn new_region(parent: &Dataset, slice: &Vec<AxisSelection>, reply: BackendReply) -> (r:
        Result<Reference, RegionError>)
        ensures
            outcome_is(
                *parent,
                slice@,
                reply,
                match r {
                    Ok(reference) => Ok(reference@),
                    Err(e) => Err(e),
                },
            ),
            r is Ok <==> parent.valid && selection_fits(parent.shape@, slice@) && reply is Created,
            r is Ok ==> r->Ok_0@.len() == REGION_REF_LEN,
    {
        if !parent.valid {
            return Err(RegionError::HandleInvalid);
        }
        match resolve_selection(&parent.shape, slice) {
            Ok(_) => {},
            Err(e) => {
                return Err(RegionError::Selection(e));
            },
        }
        match reply {
            BackendReply::HandleRejected => Err(RegionError::HandleInvalid),
            BackendReply::CreateFailed { diagnostic } => Err(
                RegionError::StorageCreateFailed { diagnostic },
            ),
            BackendReply::Created { bytes } => Ok(Reference { reg_ref: bytes }),
        }
    }

    /// The storage type under which references are written and read.
    pub fn type_descriptor() -> (tag: TypeDescriptor)
        ensures
            tag == TypeDescriptor::Reference,
    {
        TypeDescriptor::Reference
    }

    /// The bytes of the reference, as the backend made them.
    pub fn as_bytes(&self) -> (bytes: &[u8; 12])
        ensures
            bytes@ == self@,
    {
        &self.reg_ref
    }

    /// The bytes of the reference in a vector, ready to be stored.
    pub fn to_bytes(&self) -> (bytes: Vec<u8>)
        ensures
            bytes@ == self@,
    {
        let mut bytes: Vec<u8> = Vec::new();
        let mut i: usize = 0;
        while i < 12
            invariant
                0 <= i <= 12,
                bytes@.len() == i,
                forall|j: int| 0 <= j < i ==> bytes@[j] == self.reg_ref@[j],
            decreases 12 - i,
        {
            bytes.push(self.reg_ref[i]);
            i += 1;
        }
        assert(bytes@ =~= self@);
        bytes
    }

    /// The reference that was stored as `bytes`, if they have the length of
    /// one. The bytes are taken as they are.
    pub fn from_bytes(bytes: &[u8]) -> (read: Option<Reference>)
        ensures
            decodes_to(bytes@, read),
            read is Some <==> bytes@.len() == REGION_REF_LEN,
    {
        if bytes.len() != 12 {
            return None;
        }
        let mut reg_ref: [u8; 12] = [0u8; 12];
        let mut i: usize = 0;
        while i < 12
            invariant
                0 <= i <= 12,
                bytes@.len() == 12,
                forall|j: int| 0 <= j < i ==> reg_ref@[j] == bytes@[j],
            decreases 12 - i,
        {
            reg_ref[i] = bytes[i];
            i += 1;
        }
        assert(reg_ref@ =~= bytes@);
        Some(Reference { reg_ref })
    }

    /// Every reference has the same number of bytes.
    pub proof fn lemma_length_is_constant(self)
        ensures
            self@.len() == REGION_REF_LEN,
    {
    }

    /// A reference is its bytes: two references with the same bytes are the
    /// same value.
    pub proof fn lemma_bytes_determine(self, other: Reference)
        requires
            self@ == other@,
        ensures
            self == other,
    {
        assert(self.reg_ref@ =~= other.reg_ref@);
        assert(self.reg_ref == other.reg_ref);
    }

    /// Storing a reference as its bytes and decoding what was stored gives
    /// the reference back, bit for bit.
    pub proof fn lemma_round_trip(self, read: Option<Reference>)
        requires
            decodes_to(self@, read),
        ensures
            read == Some(self),
            read->Some_0@ == self@,
    {
        self.lemma_length_is_constant();
        self.lemma_bytes_determine(read->Some_0);
    }
}

/// A valid dataset, a selection that fits it and a backend that created the
/// reference always give a reference, of the constant length, holding the
/// bytes that the backend made.
pub proof fn lemma_region_succeeds(
    parent: Dataset,
    selection: Seq<AxisSelection>,
    made: [u8; 12],
    r: Result<Seq<u8>, RegionError>,
)
    requires
        parent.valid,
        selection_fits(parent.shape@, selection),
        outcome_is(parent, selection, BackendReply::Created { bytes: made }, r),
    ensures
        r == Ok::<Seq<u8>, RegionError>(made@),
        made@.len() == REGION_REF_LEN,
{
    match r {
        Err(RegionError::Selection(e)) => {
            crate::selection::lemma_fault_excludes_fit(parent.shape@, selection, e);
        },
        _ => {},
    }
}

/// The outcome of a request is decided by the dataset, the selection and
/// the backend's reply: two outcomes for the same three are equal.
pub proof fn lemma_outcome_is_unique(
    parent: Dataset,
    selection: Seq<AxisSelection>,
    reply: BackendReply,
    a: Result<Seq<u8>, RegionError>,
    b: Result<Seq<u8>, RegionError>,
)
    requires
        outcome_is(parent, selection, reply, a),
        outcome_is(parent, selection, reply, b),
    ensures
        a == b,
{
    if let Err(RegionError::Selection(e)) = a {
        crate::selection::lemma_fault_excludes_fit(parent.shape@, selection, e);
        if let Err(RegionError::Selection(f)) = b {
            crate::selection::lemma_resolution_is_unique(
                parent.shape@,
                selection,
                Err(e),
                Err(f),
            );
        }
    }
    if let Err(RegionError::Selection(f)) = b {
        crate::selection::lemma_fault_excludes_fit(parent.shape@, selection, f);
    }
}

} // verus!
