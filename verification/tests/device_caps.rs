//! Facts about a device.
use apxinf_cuda::device_caps::{
    query_attribute, AttributeIds, AttributeRequest, CudaArchFamily, CudaDeviceCaps, NameRequest,
    QueryStep,
};

#[test]
fn classifies_supported_architecture_families() {
    for sm in [80, 86, 87, 89] {
        assert_eq!(CudaDeviceCaps::classify(sm), CudaArchFamily::Sm80);
    }
    for sm in [100, 101, 110, 120, 121] {
        assert_eq!(CudaDeviceCaps::classify(sm), CudaArchFamily::Sm100);
    }
}

#[test]
fn preserves_unknown_architecture() {
    assert_eq!(CudaDeviceCaps::classify(75), CudaArchFamily::Other(75));
}

#[test]
fn families_are_shown_apart() {
    assert_eq!(CudaArchFamily::Sm80.to_string(), "sm80-family");
    assert_eq!(CudaArchFamily::Sm100.to_string(), "sm100-family");
    assert_eq!(CudaArchFamily::Other(75).to_string(), "sm75");
    assert_eq!(CudaArchFamily::Other(u32::MAX).to_string(), "sm4294967295");
    assert_eq!(CudaDeviceCaps::classify(0).to_string(), "sm0");
}

#[test]
fn the_families_of_devices_and_of_cutlass_agree() {
    for sm in 0..2000u32 {
        let name = format!("sm_{sm}");
        assert_eq!(
            CudaDeviceCaps::classify(sm) == CudaArchFamily::Sm100,
            apxinf_cuda::arch::is_cutlass_sm100_family(&name)
        );
        assert_eq!(
            CudaDeviceCaps::classify(sm) == CudaArchFamily::Sm100,
            apxinf_cuda::arch::is_cutlass_sm100_family(&format!("{name}a"))
        );
    }
}

const IDS: AttributeIds = AttributeIds {
    compute_major: 75,
    compute_minor: 76,
    multiprocessor_count: 16,
};

fn next_attribute(request: AttributeRequest, value: i32) -> AttributeRequest {
    match request.answer(Ok(value)) {
        Ok(QueryStep::Attribute(next)) => next,
        _ => panic!("another attribute was to be read"),
    }
}

fn name_request(device: usize, major: i32, minor: i32, count: i32) -> Result<NameRequest, String> {
    let first = CudaDeviceCaps::query(device, IDS)?;
    assert_eq!(first.attribute(), 75);
    assert_eq!(first.device, device as i32);
    let second = next_attribute(first, major);
    assert_eq!(second.attribute(), 76);
    let third = next_attribute(second, minor);
    assert_eq!(third.attribute(), 16);
    match third.answer(Ok(count))? {
        QueryStep::Name(request) => Ok(request),
        QueryStep::Attribute(_) => panic!("the name was to be read"),
    }
}

#[test]
fn a_query_gathers_the_facts() {
    let request = name_request(1, 11, 0, 20).unwrap();
    assert_eq!(request.device(), 1);
    let mut buffer = vec![0u8; 256];
    buffer[..11].copy_from_slice(b"NVIDIA Thor");
    buffer[12] = b'x';
    assert_eq!(
        request.answer(Ok(buffer)).unwrap(),
        CudaDeviceCaps {
            device_name: "NVIDIA Thor".to_string(),
            compute_major: 11,
            compute_minor: 0,
            sm: 110,
            multiprocessor_count: 20,
            arch_family: CudaArchFamily::Sm100,
        }
    );
}

#[test]
fn a_name_is_decoded_with_replacements() {
    let name = |buffer: Vec<u8>| {
        name_request(0, 8, 7, 1).unwrap().answer(Ok(buffer)).unwrap().device_name
    };
    assert_eq!(name(b"a\xffb\0c".to_vec()), "a\u{fffd}b");
    assert_eq!(name("caf\u{e9}".as_bytes().to_vec()), "caf\u{e9}");
    assert_eq!(name(vec![0]), "");
    let described = name_request(0, 8, 7, 1).unwrap().describe("Orin".to_string());
    assert_eq!(described.device_name, "Orin");
    assert_eq!(described.sm, 87);
    assert_eq!(described.arch_family, CudaArchFamily::Sm80);
}

#[test]
fn a_device_number_must_fit() {
    let error = CudaDeviceCaps::query(2147483648, IDS).unwrap_err();
    assert_eq!(error, "CUDA device id 2147483648 does not fit in i32");
    assert_eq!(CudaDeviceCaps::query(2147483647, IDS).unwrap().device, i32::MAX);
}

#[test]
fn negative_attributes_are_refused() {
    assert_eq!(
        query_attribute(0, 75, Ok(-2147483648)).unwrap_err(),
        "CUDA device 0 returned negative attribute 75: -2147483648"
    );
    assert_eq!(
        query_attribute(-3, -7, Ok(-1)).unwrap_err(),
        "CUDA device -3 returned negative attribute -7: -1"
    );
    assert_eq!(query_attribute(0, 75, Ok(0)).unwrap(), 0);
    assert_eq!(query_attribute(0, 75, Ok(i32::MAX)).unwrap(), 2147483647);
    assert_eq!(query_attribute(0, 75, Err("no device".to_string())).unwrap_err(), "no device");
    let second = next_attribute(CudaDeviceCaps::query(4, IDS).unwrap(), 8);
    assert_eq!(
        second.answer(Ok(-5)).err().unwrap(),
        "CUDA device 4 returned negative attribute 76: -5"
    );
}

#[test]
fn the_first_failure_ends_a_query() {
    let error = "driver gone".to_string();
    let first = CudaDeviceCaps::query(0, IDS).unwrap();
    assert_eq!(first.answer(Err(error.clone())).err().unwrap(), error);
    let request = name_request(0, 8, 7, 1).unwrap();
    assert_eq!(request.answer(Err(error.clone())).unwrap_err(), error);
}

#[test]
fn a_capability_that_cannot_be_held_is_refused() {
    assert_eq!(
        name_request(0, 429496730, 0, 1).err().unwrap(),
        "CUDA compute capability overflow"
    );
    assert_eq!(
        name_request(0, 429496729, 6, 1).err().unwrap(),
        "CUDA compute capability overflow"
    );
    let largest = name_request(0, 429496729, 5, 1).unwrap().describe("x".to_string());
    assert_eq!(largest.sm, u32::MAX);
    assert_eq!(largest.arch_family, CudaArchFamily::Other(u32::MAX));
}
