//! The fixed, positional layout of the boot-services table.
//!
//! The table is read by firmware code compiled independently, by byte offset
//! alone: no field may be reordered, resized, or omitted, and reserved slots
//! must keep their pointer-width positions so that every later offset stays
//! correct. On the target, the header occupies 24 bytes and every entry point
//! is one 8-byte function-pointer slot.
//!
//! [`offset_at`] computes each field's byte offset as the sum of the sizes of
//! all fields declared before it; [`lemma_offset_matches_reference`] proves
//! that this computed layout agrees, field for field, with the offsets the
//! external firmware specification assigns.

use vstd::prelude::*;

verus! {

/// Size in bytes of the table header (signature, revision, header size,
/// checksum and one reserved word).
pub const HEADER_SIZE: usize = 24;

/// Size in bytes of one entry-point slot: one function pointer on the target.
pub const ENTRY_SIZE: usize = 8;

/// Number of declared fields: the header plus every entry-point slot,
/// reserved slots included.
pub const NUM_FIELDS: usize = 45;

/// Total size in bytes of the table.
pub const TABLE_SIZE: usize = 376;

/// Every field of the boot-services table, in its declared order.
///
/// `Reserved` stands for the one slot the external specification declares but
/// never exposes; it still occupies a full entry so later offsets match.
#[derive(Clone, Copy, PartialEq, Eq, Structural, Debug)]
pub enum BootField {
    Hdr,
    RaiseTpl,
    RestoreTpl,
    AllocatePages,
    FreePages,
    GetMemoryMap,
    AllocatePool,
    FreePool,
    CreateEvent,
    SetTimer,
    WaitForEvent,
    SignalEvent,
    CloseEvent,
    CheckEvent,
    InstallProtocolInterface,
    ReinstallProtocolInterface,
    UninstallProtocolInterface,
    HandleProtocol,
    Reserved,
    RegisterProtocolNotify,
    LocateHandle,
    LocateDevicePath,
    InstallConfigurationTable,
    LoadImage,
    StartImage,
    Exit,
    UnloadImage,
    ExitBootServices,
    GetNextMonotonicCount,
    Stall,
    SetWatchdogTimer,
    ConnectController,
    DisconnectController,
    OpenProtocol,
    CloseProtocol,
    OpenProtocolInformation,
    ProtocolsPerHandle,
    LocateHandleBuffer,
    LocateProtocol,
    InstallMultipleProtocolInterfaces,
    UninstallMultipleProtocolInterfaces,
    CalculateCrc32,
    CopyMem,
    SetMem,
    CreateEventEx,
}

impl BootField {
    /// Position of the field in declaration order; the header is field zero.
    pub open spec fn ordinal(&self) -> nat {
        match *self {
            BootField::Hdr => 0,
            BootField::RaiseTpl => 1,
            BootField::RestoreTpl => 2,
            BootField::AllocatePages => 3,
            BootField::FreePages => 4,
            BootField::GetMemoryMap => 5,
            BootField::AllocatePool => 6,
            BootField::FreePool => 7,
            BootField::CreateEvent => 8,
            BootField::SetTimer => 9,
            BootField::WaitForEvent => 10,
            BootField::SignalEvent => 11,
            BootField::CloseEvent => 12,
            BootField::CheckEvent => 13,
            BootField::InstallProtocolInterface => 14,
            BootField::ReinstallProtocolInterface => 15,
            BootField::UninstallProtocolInterface => 16,
            BootField::HandleProtocol => 17,
            BootField::Reserved => 18,
            BootField::RegisterProtocolNotify => 19,
            BootField::LocateHandle => 20,
            BootField::LocateDevicePath => 21,
            BootField::InstallConfigurationTable => 22,
            BootField::LoadImage => 23,
            BootField::StartImage => 24,
            BootField::Exit => 25,
            BootField::UnloadImage => 26,
            BootField::ExitBootServices => 27,
            BootField::GetNextMonotonicCount => 28,
            BootField::Stall => 29,
            BootField::SetWatchdogTimer => 30,
            BootField::ConnectController => 31,
            BootField::DisconnectController => 32,
            BootField::OpenProtocol => 33,
            BootField::CloseProtocol => 34,
            BootField::OpenProtocolInformation => 35,
            BootField::ProtocolsPerHandle => 36,
            BootField::LocateHandleBuffer => 37,
            BootField::LocateProtocol => 38,
            BootField::InstallMultipleProtocolInterfaces => 39,
            BootField::UninstallMultipleProtocolInterfaces => 40,
            BootField::CalculateCrc32 => 41,
            BootField::CopyMem => 42,
            BootField::SetMem => 43,
            BootField::CreateEventEx => 44,
        }
    }

    /// Byte size of the field: the header's fixed size for field zero, one
    /// pointer-width slot for every entry point.
    pub open spec fn size(&self) -> nat {
        slot_size(self.ordinal())
    }

    /// Byte offset of the field, computed by summing the sizes of all fields
    /// declared before it.
    pub open spec fn offset(&self) -> nat {
        offset_at(self.ordinal())
    }

    /// Position of the field in declaration order.
    pub fn index(&self) -> (i: usize)
        ensures
            i == self.ordinal(),
            i < NUM_FIELDS,
    {
        match *self {
            BootField::Hdr => 0,
            BootField::RaiseTpl => 1,
            BootField::RestoreTpl => 2,
            BootField::AllocatePages => 3,
            BootField::FreePages => 4,
            BootField::GetMemoryMap => 5,
            BootField::AllocatePool => 6,
            BootField::FreePool => 7,
            BootField::CreateEvent => 8,
            BootField::SetTimer => 9,
            BootField::WaitForEvent => 10,
            BootField::SignalEvent => 11,
            BootField::CloseEvent => 12,
            BootField::CheckEvent => 13,
            BootField::InstallProtocolInterface => 14,
            BootField::ReinstallProtocolInterface => 15,
            BootField::UninstallProtocolInterface => 16,
            BootField::HandleProtocol => 17,
            BootField::Reserved => 18,
            BootField::RegisterProtocolNotify => 19,
            BootField::LocateHandle => 20,
            BootField::LocateDevicePath => 21,
            BootField::InstallConfigurationTable => 22,
            BootField::LoadImage => 23,
            BootField::StartImage => 24,
            BootField::Exit => 25,
            BootField::UnloadImage => 26,
            BootField::ExitBootServices => 27,
            BootField::GetNextMonotonicCount => 28,
            BootField::Stall => 29,
            BootField::SetWatchdogTimer => 30,
            BootField::ConnectController => 31,
            BootField::DisconnectController => 32,
            BootField::OpenProtocol => 33,
            BootField::CloseProtocol => 34,
            BootField::OpenProtocolInformation => 35,
            BootField::ProtocolsPerHandle => 36,
            BootField::LocateHandleBuffer => 37,
            BootField::LocateProtocol => 38,
            BootField::InstallMultipleProtocolInterfaces => 39,
            BootField::UninstallMultipleProtocolInterfaces => 40,
            BootField::CalculateCrc32 => 41,
            BootField::CopyMem => 42,
            BootField::SetMem => 43,
            BootField::CreateEventEx => 44,
        }
    }

    /// Byte size of the field.
    pub fn byte_size(&self) -> (s: usize)
        ensures
            s == self.size(),
    {
        if self.index() == 0 {
            HEADER_SIZE
        } else {
            ENTRY_SIZE
        }
    }

    /// Byte offset of the field within the table.
    pub fn byte_offset(&self) -> (o: usize)
        ensures
            o == self.offset(),
    {
        let i = self.index();
        if i == 0 {
            0
        } else {
            proof {
                lemma_offset_at_closed_form(i as nat);
            }
            HEADER_SIZE + ENTRY_SIZE * (i - 1)
        }
    }
}

/// Size in bytes of the field at position `i`: the header for position zero,
/// one pointer-width slot for every entry point after it.
pub open spec fn slot_size(i: nat) -> nat {
    if i == 0 {
        HEADER_SIZE as nat
    } else {
        ENTRY_SIZE as nat
    }
}

/// Byte offset of the field at position `i`: the sum of the sizes of the
/// fields at positions `0..i`.
pub open spec fn offset_at(i: nat) -> nat
    decreases i,
{
    if i == 0 {
        0
    } else {
        offset_at((i - 1) as nat) + slot_size((i - 1) as nat)
    }
}

/// The closed form of the summed layout: past the header, offsets advance by
/// exactly one entry slot per field.
pub proof fn lemma_offset_at_closed_form(i: nat)
    requires
        1 <= i,
    ensures
        offset_at(i) == HEADER_SIZE + ENTRY_SIZE * (i - 1),
    decreases i,
{
    if i == 1 {
        assert(offset_at(1) == offset_at(0) + slot_size(0));
    } else {
        lemma_offset_at_closed_form((i - 1) as nat);
        assert(offset_at(i) == offset_at((i - 1) as nat) + slot_size((i - 1) as nat));
        assert(ENTRY_SIZE * (i - 1) == ENTRY_SIZE * (i - 2) + ENTRY_SIZE) by (nonlinear_arith)
            requires
                i >= 2,
        ;
    }
}

/// Byte offset that the external firmware specification assigns to each
/// field, as a literal reference table.
pub open spec fn reference_offset(f: BootField) -> nat {
    match f {
        BootField::Hdr => 0,
        BootField::RaiseTpl => 24,
        BootField::RestoreTpl => 32,
        BootField::AllocatePages => 40,
        BootField::FreePages => 48,
        BootField::GetMemoryMap => 56,
        BootField::AllocatePool => 64,
        BootField::FreePool => 72,
        BootField::CreateEvent => 80,
        BootField::SetTimer => 88,
        BootField::WaitForEvent => 96,
        BootField::SignalEvent => 104,
        BootField::CloseEvent => 112,
        BootField::CheckEvent => 120,
        BootField::InstallProtocolInterface => 128,
        BootField::ReinstallProtocolInterface => 136,
        BootField::UninstallProtocolInterface => 144,
        BootField::HandleProtocol => 152,
        BootField::Reserved => 160,
        BootField::RegisterProtocolNotify => 168,
        BootField::LocateHandle => 176,
        BootField::LocateDevicePath => 184,
        BootField::InstallConfigurationTable => 192,
        BootField::LoadImage => 200,
        BootField::StartImage => 208,
        BootField::Exit => 216,
        BootField::UnloadImage => 224,
        BootField::ExitBootServices => 232,
        BootField::GetNextMonotonicCount => 240,
        BootField::Stall => 248,
        BootField::SetWatchdogTimer => 256,
        BootField::ConnectController => 264,
        BootField::DisconnectController => 272,
        BootField::OpenProtocol => 280,
        BootField::CloseProtocol => 288,
        BootField::OpenProtocolInformation => 296,
        BootField::ProtocolsPerHandle => 304,
        BootField::LocateHandleBuffer => 312,
        BootField::LocateProtocol => 320,
        BootField::InstallMultipleProtocolInterfaces => 328,
        BootField::UninstallMultipleProtocolInterfaces => 336,
        BootField::CalculateCrc32 => 344,
        BootField::CopyMem => 352,
        BootField::SetMem => 360,
        BootField::CreateEventEx => 368,
    }
}

/// The byte offset of every declared field, computed from the component
/// sizes in declared order (reserved placeholders included), matches the
/// offset the external firmware specification assigns to it.
pub proof fn lemma_offset_matches_reference(f: BootField)
    ensures
        f.offset() == reference_offset(f),
{
    if f.ordinal() >= 1 {
        lemma_offset_at_closed_form(f.ordinal());
    }
}

/// The computed layout agrees with the reference table on every declared
/// field at once.
pub proof fn lemma_layout_matches_reference()
    ensures
        forall|f: BootField| #[trigger] f.offset() == reference_offset(f),
{
    assert forall|f: BootField| #[trigger] f.offset() == reference_offset(f) by {
        lemma_offset_matches_reference(f);
    }
}

/// The whole table is exactly `TABLE_SIZE` bytes: the offset one past the
/// last declared field.
pub proof fn lemma_table_size()
    ensures
        offset_at(NUM_FIELDS as nat) == TABLE_SIZE,
{
    lemma_offset_at_closed_form(NUM_FIELDS as nat);
}

/// Fields never overlap: each field ends at or before the next one starts,
/// so the layout is positional and gap-free.
pub proof fn lemma_fields_disjoint(i: nat)
    requires
        i < NUM_FIELDS,
    ensures
        offset_at(i) + slot_size(i) == offset_at(i + 1),
{
}

} // verus!
