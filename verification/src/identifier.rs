//! Native identifiers and their normalized form.

use vstd::prelude::*;

verus! {

/// The identifier of a module as the platform's loader exposes it.
#[derive(Clone, Debug, PartialEq, Eq)]
pub enum NativeIdentifier {
    /// A 16-byte unique identifier that is canonical as it stands (Mach-O).
    UniqueUuid([u8; 16]),
    /// A GNU build id, of any length (ELF).
    GnuBuildId(Vec<u8>),
    /// The timestamp and the image size from a PE header.
    PeSignature(u32, u32),
    /// A GUID in the linker's little-endian field layout, and the generation
    /// (age) of the PDB file that belongs to it.
    PdbSignature([u8; 16], u32),
}

/// The mathematical content of a [`NativeIdentifier`].
pub enum IdentifierModel {
    UniqueUuid(Seq<u8>),
    GnuBuildId(Seq<u8>),
    PeSignature(u32, u32),
    PdbSignature(Seq<u8>, u32),
}

impl View for NativeIdentifier {
    type V = IdentifierModel;

    open spec fn view(&self) -> IdentifierModel {
        match *self {
            NativeIdentifier::UniqueUuid(bytes) => IdentifierModel::UniqueUuid(bytes@),
            NativeIdentifier::GnuBuildId(bytes) => IdentifierModel::GnuBuildId(bytes@),
            NativeIdentifier::PeSignature(timestamp, size) => IdentifierModel::PeSignature(
                timestamp,
                size,
            ),
            NativeIdentifier::PdbSignature(guid, age) => IdentifierModel::PdbSignature(guid@, age),
        }
    }
}

impl DeepView for NativeIdentifier {
    type V = IdentifierModel;

    open spec fn deep_view(&self) -> IdentifierModel {
        self@
    }
}

/// The canonical identifier of an image: 16 bytes whose first three fields are
/// in network byte order, and a generation counter that is 0 where the native
/// form has none.
#[derive(Clone, Copy, Debug, PartialEq, Eq)]
pub struct NormalizedDebugId {
    pub uuid: [u8; 16],
    pub generation: u32,
}

/// The mathematical content of a [`NormalizedDebugId`].
pub struct DebugIdModel {
    pub uuid: Seq<u8>,
    pub generation: u32,
}

impl View for NormalizedDebugId {
    type V = DebugIdModel;

    open spec fn view(&self) -> DebugIdModel {
        DebugIdModel { uuid: self.uuid@, generation: self.generation }
    }
}

impl DeepView for NormalizedDebugId {
    type V = DebugIdModel;

    open spec fn deep_view(&self) -> DebugIdModel {
        self@
    }
}

/// `bytes` with the part from `start` up to `end` in reverse order.
pub open spec fn field_reversed(bytes: Seq<u8>, start: int, end: int) -> Seq<u8> {
    bytes.subrange(0, start) + bytes.subrange(start, end).reverse() + bytes.subrange(
        end,
        bytes.len() as int,
    )
}

/// A little-endian GUID in network order: the 4-byte field, then each of the two
/// 2-byte fields, reversed; the last 8 bytes as they are.
pub open spec fn network_order(guid: Seq<u8>) -> Seq<u8> {
    guid.subrange(0, 4).reverse() + guid.subrange(4, 6).reverse() + guid.subrange(6, 8).reverse()
        + guid.subrange(8, 16)
}

/// What an identifier normalizes to. Only a PDB signature has a normalized
/// form here; every other variant belongs to another platform family.
pub open spec fn normalized(id: IdentifierModel) -> Option<DebugIdModel> {
    match id {
        IdentifierModel::PdbSignature(guid, age) => Some(
            DebugIdModel { uuid: network_order(guid), generation: age },
        ),
        IdentifierModel::UniqueUuid(_) => None,
        IdentifierModel::GnuBuildId(_) => None,
        IdentifierModel::PeSignature(_, _) => None,
    }
}

/// Reverses `bytes[start..end]` in place and leaves the rest alone.
fn reverse_field(bytes: &mut [u8; 16], start: usize, end: usize)
    requires
        start <= end <= 16,
    ensures
        final(bytes)@ == field_reversed(old(bytes)@, start as int, end as int),
{
    let ghost before = bytes@;
    let mut low: usize = start;
    let mut high: usize = end;
    while low + 1 < high
        invariant
            start <= low <= high <= end <= 16,
            low - start == end - high,
            before.len() == 16,
            bytes@.len() == 16,
            forall|k: int| 0 <= k < start || end <= k < 16 ==> bytes@[k] == before[k],
            forall|k: int| low <= k < high ==> bytes@[k] == before[k],
            forall|k: int|
                start <= k < low || high <= k < end ==> bytes@[k] == before[start + end - 1 - k],
        decreases high - low,
    {
        let first: u8 = bytes[low];
        let last: u8 = bytes[high - 1];
        bytes[low] = last;
        bytes[high - 1] = first;
        low += 1;
        high -= 1;
    }
    assert(bytes@ =~= field_reversed(before, start as int, end as int));
}

/// Normalizes a native identifier.
///
/// A PDB signature gives the identifier whose bytes are the GUID in network
/// order and whose generation is the signature's age, unchanged. Any other
/// variant, which the loader of this platform family should never report,
/// gives `None`.
pub fn normalize(id: &NativeIdentifier) -> (result: Option<NormalizedDebugId>)
    ensures
        result.deep_view() == normalized(id@),
{
    match id {
        NativeIdentifier::PdbSignature(signature, age) => {
            let mut uuid: [u8; 16] = *signature;
            reverse_field(&mut uuid, 0, 4);
            reverse_field(&mut uuid, 4, 6);
            reverse_field(&mut uuid, 6, 8);
            assert(uuid@ =~= network_order(signature@));
            Some(NormalizedDebugId { uuid, generation: *age })
        },
        NativeIdentifier::UniqueUuid(_) => None,
        NativeIdentifier::GnuBuildId(_) => None,
        NativeIdentifier::PeSignature(_, _) => None,
    }
}

/// Byte by byte: normalizing a GUID swaps the bytes of its first three fields
/// end for end and keeps its last eight bytes where they are.
pub proof fn lemma_network_order_bytes(guid: Seq<u8>)
    requires
        guid.len() == 16,
    ensures
        network_order(guid) == seq![
            guid[3],
            guid[2],
            guid[1],
            guid[0],
            guid[5],
            guid[4],
            guid[7],
            guid[6],
            guid[8],
            guid[9],
            guid[10],
            guid[11],
            guid[12],
            guid[13],
            guid[14],
            guid[15],
        ],
{
    let swapped = seq![
        guid[3],
        guid[2],
        guid[1],
        guid[0],
        guid[5],
        guid[4],
        guid[7],
        guid[6],
        guid[8],
        guid[9],
        guid[10],
        guid[11],
        guid[12],
        guid[13],
        guid[14],
        guid[15],
    ];
    assert(network_order(guid) =~= swapped);
}

/// Putting a GUID into network order twice gives the GUID back: the conversion
/// loses nothing, and the same swap leads from network order to the linker's
/// layout.
pub proof fn lemma_network_order_round_trip(guid: Seq<u8>)
    requires
        guid.len() == 16,
    ensures
        network_order(network_order(guid)) == guid,
{
    lemma_network_order_bytes(guid);
    lemma_network_order_bytes(network_order(guid));
    assert(network_order(network_order(guid)) =~= guid);
}

/// A PDB signature always normalizes, to its GUID in network order with its
/// age kept as the generation; no other variant normalizes.
pub proof fn lemma_normalized_exactly_pdb(id: IdentifierModel)
    ensures
        normalized(id) is Some <==> id is PdbSignature,
        id matches IdentifierModel::PdbSignature(guid, age) ==> normalized(id) == Some(
            DebugIdModel { uuid: network_order(guid), generation: age },
        ),
{
}

} // verus!
