use modlookup::error::ResolveError;
use modlookup::hash::{calc_checksum, calc_wide_checksum};
use modlookup::modules::{ModuleDescriptor, ModuleList};
use modlookup::resolve::{find_routine, find_routine_by_name};

fn wide(s: &str) -> Vec<u16> {
    s.encode_utf16().collect()
}

fn put(img: &mut [u8], at: usize, bytes: &[u8]) {
    img[at..at + bytes.len()].copy_from_slice(bytes);
}

fn image(names: &[&[u8]], offsets: &[u32]) -> Vec<u8> {
    let mut img = vec![0u8; 0x400];
    put(&mut img, 0, &0x5a4du16.to_le_bytes());
    put(&mut img, 0x3c, &0x80u32.to_le_bytes());
    put(&mut img, 0x80, &0x4550u32.to_le_bytes());
    put(&mut img, 0x98, &0x20bu16.to_le_bytes());
    put(&mut img, 0x104, &16u32.to_le_bytes());
    put(&mut img, 0x108, &0x200u32.to_le_bytes());
    put(&mut img, 0x214, &(offsets.len() as u32).to_le_bytes());
    put(&mut img, 0x218, &(names.len() as u32).to_le_bytes());
    put(&mut img, 0x21c, &0x240u32.to_le_bytes());
    put(&mut img, 0x220, &0x280u32.to_le_bytes());
    put(&mut img, 0x224, &0x2c0u32.to_le_bytes());
    let mut at = 0x300;
    for (i, name) in names.iter().enumerate() {
        put(&mut img, 0x240 + 4 * i, &offsets[i].to_le_bytes());
        put(&mut img, 0x280 + 4 * i, &(at as u32).to_le_bytes());
        put(&mut img, 0x2c0 + 2 * i, &(i as u16).to_le_bytes());
        put(&mut img, at, name);
        at += name.len() + 1;
    }
    img
}

fn module(name: &str, base: u64, next: usize, image: Vec<u8>) -> ModuleDescriptor {
    let name = wide(name);
    ModuleDescriptor { next, base, name_len: (name.len() * 2) as u16, name, image }
}

fn process() -> ModuleList {
    ModuleList {
        first: 0,
        nodes: vec![
            module("app.exe", 0x40_0000, 1, image(&[], &[])),
            module(
                "ntdll.dll",
                0x7ffe_0000_0000,
                2,
                image(&[b"NtAllocateVirtualMemory", b"NtClose"], &[0x9d0a0, 0x9d1c0]),
            ),
            module("KERNEL32.DLL", 0x7ffd_1000_0000, 0, image(&[b"VirtualAlloc"], &[0x18500])),
        ],
    }
}

#[test]
fn routine_of_a_loaded_module_is_resolved() {
    let list = process();
    let lib_sum = calc_wide_checksum(&wide("ntdll.dll"));
    let func_sum = calc_checksum(b"NtAllocateVirtualMemory");
    assert_eq!(lib_sum, 0xb8e7e9f9);
    assert_eq!(func_sum, 0xd58d5a18);
    let address = find_routine(&list, lib_sum, func_sum).unwrap();
    assert_eq!(address, 0x7ffe_0009_d0a0);
    assert_ne!(address, 0);
    let module = &list.nodes[1];
    assert!(module.base <= address && address < module.base + module.image.len() as u64 + 0x10_0000);
}

#[test]
fn second_routine_is_not_taken_for_the_first() {
    let list = process();
    assert_eq!(find_routine(&list, 0xb8e7e9f9, calc_checksum(b"NtClose")), Ok(0x7ffe_0009_d1c0));
}

#[test]
fn missing_routine_is_export_not_found_and_the_module_was_found() {
    let list = process();
    let lib_sum = calc_wide_checksum(&wide("ntdll.dll"));
    assert_eq!(
        find_routine(&list, lib_sum, calc_checksum(b"NtNoSuchRoutine")),
        Err(ResolveError::ExportNotFound)
    );
    assert_eq!(list.find_module(lib_sum), Ok(0x7ffe_0000_0000));
}

#[test]
fn routine_of_another_module_is_not_found_in_this_one() {
    let list = process();
    assert_eq!(
        find_routine(&list, calc_wide_checksum(&wide("ntdll.dll")), calc_checksum(b"VirtualAlloc")),
        Err(ResolveError::ExportNotFound)
    );
    assert_eq!(
        find_routine(&list, calc_wide_checksum(&wide("kernel32.dll")), calc_checksum(b"VirtualAlloc")),
        Ok(0x7ffd_1001_8500)
    );
}

#[test]
fn missing_module_is_module_not_found() {
    let list = process();
    assert_eq!(
        find_routine(&list, calc_wide_checksum(&wide("user32.dll")), 0xd58d5a18),
        Err(ResolveError::ModuleNotFound)
    );
}

#[test]
fn broken_image_of_the_module_is_malformed() {
    let mut list = process();
    list.nodes[1].image.truncate(0x100);
    assert_eq!(find_routine(&list, 0xb8e7e9f9, 0xd58d5a18), Err(ResolveError::MalformedImage));
    list.nodes[1].image.clear();
    assert_eq!(find_routine(&list, 0xb8e7e9f9, 0xd58d5a18), Err(ResolveError::MalformedImage));
    assert_eq!(
        find_routine(&list, calc_wide_checksum(&wide("kernel32.dll")), calc_checksum(b"VirtualAlloc")),
        Ok(0x7ffd_1001_8500)
    );
}

#[test]
fn names_are_hashed_before_the_lookup() {
    let list = process();
    assert_eq!(
        find_routine_by_name(&list, &wide("NTDLL.DLL"), b"ntallocatevirtualmemory"),
        Ok(0x7ffe_0009_d0a0)
    );
    assert_eq!(
        find_routine_by_name(&list, &wide("ntdll.dll"), b"NtAllocateVirtualMemory"),
        find_routine(&list, 0xb8e7e9f9, 0xd58d5a18)
    );
    assert_eq!(
        find_routine_by_name(&list, &wide("ntdll"), b"NtClose"),
        Err(ResolveError::ModuleNotFound)
    );
}

#[test]
fn only_the_first_module_of_a_name_is_searched() {
    let list = ModuleList {
        first: 0,
        nodes: vec![
            module("twin.dll", 0x1000, 1, image(&[b"One"], &[0x10])),
            module("TWIN.DLL", 0x2000, 0, image(&[b"Two"], &[0x20])),
        ],
    };
    let lib_sum = calc_wide_checksum(&wide("twin.dll"));
    assert_eq!(find_routine(&list, lib_sum, calc_checksum(b"One")), Ok(0x1010));
    assert_eq!(find_routine(&list, lib_sum, calc_checksum(b"Two")), Err(ResolveError::ExportNotFound));
}
