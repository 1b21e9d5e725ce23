//! The table layout against the reference offsets of the external
//! specification, and the fixed numeric encodings of the enumerations.

use uefi_boot::layout::BootField;
use uefi_boot::layout::ENTRY_SIZE;
use uefi_boot::layout::HEADER_SIZE;
use uefi_boot::layout::NUM_FIELDS;
use uefi_boot::layout::TABLE_SIZE;
use uefi_boot::table::AllocType;
use uefi_boot::table::InterfaceType;
use uefi_boot::table::LocateSearchType;
use uefi_boot::table::MemoryType;
use uefi_boot::table::TimerDelay;

fn all_fields() -> Vec<BootField> {
    vec![
        BootField::Hdr,
        BootField::RaiseTpl,
        BootField::RestoreTpl,
        BootField::AllocatePages,
        BootField::FreePages,
        BootField::GetMemoryMap,
        BootField::AllocatePool,
        BootField::FreePool,
        BootField::CreateEvent,
        BootField::SetTimer,
        BootField::WaitForEvent,
        BootField::SignalEvent,
        BootField::CloseEvent,
        BootField::CheckEvent,
        BootField::InstallProtocolInterface,
        BootField::ReinstallProtocolInterface,
        BootField::UninstallProtocolInterface,
        BootField::HandleProtocol,
        BootField::Reserved,
        BootField::RegisterProtocolNotify,
        BootField::LocateHandle,
        BootField::LocateDevicePath,
        BootField::InstallConfigurationTable,
        BootField::LoadImage,
        BootField::StartImage,
        BootField::Exit,
        BootField::UnloadImage,
        BootField::ExitBootServices,
        BootField::GetNextMonotonicCount,
        BootField::Stall,
        BootField::SetWatchdogTimer,
        BootField::ConnectController,
        BootField::DisconnectController,
        BootField::OpenProtocol,
        BootField::CloseProtocol,
        BootField::OpenProtocolInformation,
        BootField::ProtocolsPerHandle,
        BootField::LocateHandleBuffer,
        BootField::LocateProtocol,
        BootField::InstallMultipleProtocolInterfaces,
        BootField::UninstallMultipleProtocolInterfaces,
        BootField::CalculateCrc32,
        BootField::CopyMem,
        BootField::SetMem,
        BootField::CreateEventEx,
    ]
}

#[test]
fn field_offsets_match_reference() {
    let fields = all_fields();
    assert_eq!(fields.len(), NUM_FIELDS);
    for (i, f) in fields.iter().enumerate() {
        assert_eq!(f.index(), i);
        let expected = if i == 0 { 0 } else { HEADER_SIZE + ENTRY_SIZE * (i - 1) };
        assert_eq!(f.byte_offset(), expected, "offset of field {i}");
    }
}

#[test]
fn notable_entry_points_sit_at_their_documented_offsets() {
    assert_eq!(BootField::Hdr.byte_offset(), 0x00);
    assert_eq!(BootField::RaiseTpl.byte_offset(), 0x18);
    assert_eq!(BootField::AllocatePages.byte_offset(), 0x28);
    assert_eq!(BootField::GetMemoryMap.byte_offset(), 0x38);
    assert_eq!(BootField::AllocatePool.byte_offset(), 0x40);
    assert_eq!(BootField::FreePool.byte_offset(), 0x48);
    assert_eq!(BootField::WaitForEvent.byte_offset(), 0x60);
    assert_eq!(BootField::HandleProtocol.byte_offset(), 0x98);
    assert_eq!(BootField::Reserved.byte_offset(), 0xA0);
    assert_eq!(BootField::ExitBootServices.byte_offset(), 0xE8);
    assert_eq!(BootField::Stall.byte_offset(), 0xF8);
    assert_eq!(BootField::CalculateCrc32.byte_offset(), 0x158);
    assert_eq!(BootField::CreateEventEx.byte_offset(), 0x170);
}

#[test]
fn field_sizes_and_total_size() {
    assert_eq!(BootField::Hdr.byte_size(), 24);
    for f in all_fields().iter().skip(1) {
        assert_eq!(f.byte_size(), 8);
    }
    let last = BootField::CreateEventEx;
    assert_eq!(last.byte_offset() + last.byte_size(), TABLE_SIZE);
    assert_eq!(TABLE_SIZE, 376);
}

#[test]
fn enum_encodings_are_ordinal_compatible() {
    assert_eq!(TimerDelay::Cancel.encoding(), 0);
    assert_eq!(TimerDelay::Periodic.encoding(), 1);
    assert_eq!(TimerDelay::Relative.encoding(), 2);

    assert_eq!(InterfaceType::Native.encoding(), 0);

    assert_eq!(LocateSearchType::AllHandles.encoding(), 0);
    assert_eq!(LocateSearchType::ByRegisterNotify.encoding(), 1);
    assert_eq!(LocateSearchType::ByProtocol.encoding(), 2);

    assert_eq!(AllocType::AnyPages.encoding(), 0);
    assert_eq!(AllocType::MaxAddress.encoding(), 1);
    assert_eq!(AllocType::Address.encoding(), 2);

    assert_eq!(MemoryType::ReservedMemoryType.encoding(), 0);
    assert_eq!(MemoryType::LoaderCode.encoding(), 1);
    assert_eq!(MemoryType::LoaderData.encoding(), 2);
    assert_eq!(MemoryType::BootServicesCode.encoding(), 3);
    assert_eq!(MemoryType::BootServicesData.encoding(), 4);
    assert_eq!(MemoryType::RuntimeServicesCode.encoding(), 5);
    assert_eq!(MemoryType::RuntimeServicesData.encoding(), 6);
    assert_eq!(MemoryType::ConventionalMemory.encoding(), 7);
    assert_eq!(MemoryType::UnusableMemory.encoding(), 8);
    assert_eq!(MemoryType::AcpiReclaimMemory.encoding(), 9);
    assert_eq!(MemoryType::AcpiMemoryNvs.encoding(), 10);
    assert_eq!(MemoryType::MemoryMappedIo.encoding(), 11);
    assert_eq!(MemoryType::MemoryMappedIoPortSpace.encoding(), 12);
    assert_eq!(MemoryType::PalCode.encoding(), 13);
}
