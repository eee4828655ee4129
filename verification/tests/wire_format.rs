use rutabaga_gfx::cross_domain::cross_domain_protocol::read_u32;
use rutabaga_gfx::cross_domain::cross_domain_protocol::read_u64;
use rutabaga_gfx::cross_domain::cross_domain_protocol::CrossDomainCapabilities;
use rutabaga_gfx::cross_domain::cross_domain_protocol::CrossDomainFutexNew;
use rutabaga_gfx::cross_domain::cross_domain_protocol::CrossDomainFutexSignal;
use rutabaga_gfx::cross_domain::cross_domain_protocol::CrossDomainGetImageRequirements;
use rutabaga_gfx::cross_domain::cross_domain_protocol::CrossDomainHeader;
use rutabaga_gfx::cross_domain::cross_domain_protocol::CrossDomainImageRequirements;
use rutabaga_gfx::cross_domain::cross_domain_protocol::CrossDomainInit;
use rutabaga_gfx::cross_domain::cross_domain_protocol::CrossDomainInitLegacy;
use rutabaga_gfx::cross_domain::cross_domain_protocol::CrossDomainReadWrite;
use rutabaga_gfx::cross_domain::cross_domain_protocol::CrossDomainSendReceive;
use rutabaga_gfx::cross_domain::cross_domain_protocol::CROSS_DOMAIN_CMD_INIT;
use rutabaga_gfx::cross_domain::cross_domain_protocol::CROSS_DOMAIN_CMD_READ;
use rutabaga_gfx::cross_domain::cross_domain_protocol::CROSS_DOMAIN_CMD_SEND;
use rutabaga_gfx::cross_domain::cross_domain_protocol::CROSS_DOMAIN_FUTEX_START;
use rutabaga_gfx::cross_domain::cross_domain_protocol::CROSS_DOMAIN_MAX_IDENTIFIERS;
use rutabaga_gfx::cross_domain::cross_domain_protocol::CROSS_DOMAIN_PIPE_READ_START;
use rutabaga_gfx::cross_domain::dispatch::next_commands;
use rutabaga_gfx::cross_domain::dispatch::opaque_data;
use rutabaga_gfx::cross_domain::dispatch::parse_command;
use rutabaga_gfx::cross_domain::dispatch::CrossDomainCommand;
use rutabaga_gfx::rutabaga_utils::MesaError;
use rutabaga_gfx::rutabaga_utils::RutabagaError;

fn le32(x: u32) -> Vec<u8> {
    x.to_le_bytes().to_vec()
}

fn words(values: &[u32]) -> Vec<u8> {
    let mut out = Vec::new();
    for v in values {
        out.extend_from_slice(&v.to_le_bytes());
    }
    out
}

#[test]
fn integers_are_little_endian() {
    let bytes = [0x78, 0x56, 0x34, 0x12, 0xef, 0xcd, 0xab, 0x90, 0x01];
    assert_eq!(read_u32(&bytes, 0), 0x1234_5678);
    assert_eq!(read_u32(&bytes, 4), 0x90ab_cdef);
    assert_eq!(read_u32(&bytes, 1), 0xef12_3456);
    assert_eq!(read_u64(&bytes, 0), 0x90ab_cdef_1234_5678);
    assert_eq!(read_u64(&bytes, 1), 0x0190_abcd_ef12_3456);
}

#[test]
fn header_decodes_tag_and_size() {
    let bytes = words(&[4, 100]);
    assert_eq!(
        CrossDomainHeader::decode(&bytes),
        Some(CrossDomainHeader { cmd: 4, cmd_size: 100 })
    );
    assert_eq!(CrossDomainHeader::decode(&bytes[0..7]), None);
    assert_eq!(CrossDomainHeader::decode(&[]), None);
}

#[test]
fn header_encodes_to_eight_bytes() {
    let mut out = vec![0xaa];
    CrossDomainHeader { cmd: 0x0102_0304, cmd_size: 5 }.encode_into(&mut out);
    assert_eq!(out, vec![0xaa, 4, 3, 2, 1, 5, 0, 0, 0]);
}

#[test]
fn init_full_form_decodes() {
    let bytes = words(&[1, 20, 7, 9, 1]);
    let expected = CrossDomainInit {
        hdr: CrossDomainHeader { cmd: 1, cmd_size: 20 },
        query_ring_id: 7,
        channel_ring_id: 9,
        channel_type: 1,
    };
    assert_eq!(CrossDomainInit::decode(&bytes), Some(expected));
    assert_eq!(CrossDomainInit::parse(&bytes), Some(expected));
    assert_eq!(CrossDomainInit::decode(&bytes[0..19]), None);
}

#[test]
fn init_legacy_form_doubles_the_query_ring() {
    let bytes = words(&[1, 16, 7, 0]);
    assert_eq!(CrossDomainInit::decode(&bytes), None);
    let legacy = CrossDomainInitLegacy::decode(&bytes).unwrap();
    assert_eq!(legacy.query_ring_id, 7);
    assert_eq!(legacy.channel_type, 0);
    let expected = CrossDomainInit {
        hdr: CrossDomainHeader { cmd: 1, cmd_size: 16 },
        query_ring_id: 7,
        channel_ring_id: 7,
        channel_type: 0,
    };
    assert_eq!(legacy.upgrade(), expected);
    assert_eq!(CrossDomainInit::parse(&bytes), Some(expected));
    assert_eq!(CrossDomainInit::parse(&bytes[0..15]), None);
}

#[test]
fn init_of_nineteen_bytes_is_read_as_legacy() {
    let mut bytes = words(&[1, 16, 7, 2]);
    bytes.extend_from_slice(&[0xff, 0xff, 0xff]);
    let cmd = CrossDomainInit::parse(&bytes).unwrap();
    assert_eq!(cmd.query_ring_id, 7);
    assert_eq!(cmd.channel_ring_id, 7);
    assert_eq!(cmd.channel_type, 2);
}

#[test]
fn get_image_requirements_decodes() {
    let bytes = words(&[2, 24, 64, 32, 0x3432_5241, 5]);
    assert_eq!(
        CrossDomainGetImageRequirements::decode(&bytes),
        Some(CrossDomainGetImageRequirements {
            hdr: CrossDomainHeader { cmd: 2, cmd_size: 24 },
            width: 64,
            height: 32,
            drm_format: 0x3432_5241,
            flags: 5,
        })
    );
    assert_eq!(CrossDomainGetImageRequirements::decode(&bytes[0..23]), None);
}

#[test]
fn image_requirements_encode_to_sixty_four_bytes() {
    let record = CrossDomainImageRequirements {
        strides: [256, 0, 0, 0],
        offsets: [0, 1, 2, 3],
        modifier: 0x0102_0304_0506_0708,
        size: 16384,
        blob_id: 2,
        map_info: 0x31,
        memory_idx: -1,
        physical_device_idx: -1,
    };
    let bytes = record.encode();
    assert_eq!(bytes.len(), 64);
    let mut expected = words(&[256, 0, 0, 0, 0, 1, 2, 3]);
    expected.extend_from_slice(&[8, 7, 6, 5, 4, 3, 2, 1]);
    expected.extend_from_slice(&16384u64.to_le_bytes());
    expected.extend_from_slice(&words(&[2, 0x31, 0xffff_ffff, 0xffff_ffff]));
    assert_eq!(bytes, expected);
}

#[test]
fn image_requirements_memory_index_is_twos_complement() {
    let record = CrossDomainImageRequirements {
        strides: [0; 4],
        offsets: [0; 4],
        modifier: 0,
        size: 0,
        blob_id: 0,
        map_info: 0,
        memory_idx: 3,
        physical_device_idx: -2,
    };
    let bytes = record.encode();
    assert_eq!(&bytes[56..60], &[3, 0, 0, 0]);
    assert_eq!(&bytes[60..64], &[0xfe, 0xff, 0xff, 0xff]);
}

#[test]
fn send_receive_round_trips() {
    let record = CrossDomainSendReceive {
        hdr: CrossDomainHeader { cmd: CROSS_DOMAIN_CMD_SEND, cmd_size: 76 },
        num_identifiers: 2,
        opaque_data_size: 12,
        identifiers: [10, 11, 12, 13],
        identifier_types: [1, 3, 0, 0],
        identifier_sizes: [4096, 0, 0, 0],
    };
    let bytes = record.encode();
    assert_eq!(bytes.len(), 64);
    assert_eq!(
        bytes,
        words(&[4, 76, 2, 12, 10, 11, 12, 13, 1, 3, 0, 0, 4096, 0, 0, 0])
    );
    assert_eq!(CrossDomainSendReceive::decode(&bytes), Some(record));
    assert_eq!(CrossDomainSendReceive::decode(&bytes[0..63]), None);
}

#[test]
fn read_write_round_trips() {
    let record = CrossDomainReadWrite {
        hdr: CrossDomainHeader { cmd: CROSS_DOMAIN_CMD_READ, cmd_size: 0 },
        identifier: 0x8000_0001,
        hang_up: 1,
        opaque_data_size: 0,
    };
    let bytes = record.encode();
    assert_eq!(bytes, words(&[6, 0, 0x8000_0001, 1, 0]));
    assert_eq!(CrossDomainReadWrite::decode(&bytes), Some(record));
    assert_eq!(CrossDomainReadWrite::decode(&bytes[0..19]), None);
}

#[test]
fn futex_new_decodes_wide_fields() {
    let mut bytes = words(&[8, 32, 0x4000_0001, 0]);
    bytes.extend_from_slice(&0x1122_3344_5566_7788u64.to_le_bytes());
    bytes.extend_from_slice(&0x99u64.to_le_bytes());
    assert_eq!(
        CrossDomainFutexNew::decode(&bytes),
        Some(CrossDomainFutexNew {
            hdr: CrossDomainHeader { cmd: 8, cmd_size: 32 },
            id: 0x4000_0001,
            pad: 0,
            fs_id: 0x1122_3344_5566_7788,
            handle: 0x99,
        })
    );
    assert_eq!(CrossDomainFutexNew::decode(&bytes[0..31]), None);
}

#[test]
fn futex_signal_round_trips() {
    let record = CrossDomainFutexSignal {
        hdr: CrossDomainHeader { cmd: 9, cmd_size: 0 },
        id: 0x4000_0002,
    };
    let bytes = record.encode();
    assert_eq!(bytes, words(&[9, 0, 0x4000_0002]));
    assert_eq!(CrossDomainFutexSignal::decode(&bytes), Some(record));
}

#[test]
fn capabilities_encode_to_twelve_bytes() {
    let caps = CrossDomainCapabilities {
        version: 1,
        supported_channels: 0b110,
        supports_dmabuf: 1,
        supports_external_gpu_memory: 0,
    };
    assert_eq!(caps.encode(), vec![1, 0, 0, 0, 6, 0, 0, 0, 1, 0, 0, 0]);
}

#[test]
fn identifier_ranges_are_ordered() {
    assert_eq!(CROSS_DOMAIN_MAX_IDENTIFIERS, 4);
    assert_eq!(CROSS_DOMAIN_PIPE_READ_START, 0x8000_0000);
    assert!(3 < CROSS_DOMAIN_FUTEX_START);
    assert!(CROSS_DOMAIN_FUTEX_START < CROSS_DOMAIN_PIPE_READ_START);
}

#[test]
fn parse_rejects_short_header() {
    assert_eq!(parse_command(&[1, 0, 0]), Err(RutabagaError::InvalidCommandBuffer));
    assert_eq!(parse_command(&[]), Err(RutabagaError::InvalidCommandBuffer));
}

#[test]
fn parse_rejects_short_records() {
    assert_eq!(
        parse_command(&words(&[CROSS_DOMAIN_CMD_INIT, 16, 7])),
        Err(RutabagaError::InvalidCommandBuffer)
    );
    assert_eq!(parse_command(&words(&[2, 24, 1, 1, 1])), Err(RutabagaError::InvalidCommandBuffer));
    assert_eq!(parse_command(&words(&[4, 64, 0, 0])), Err(RutabagaError::InvalidCommandBuffer));
    assert_eq!(parse_command(&words(&[7, 20, 2, 0])), Err(RutabagaError::InvalidCommandBuffer));
    assert_eq!(parse_command(&words(&[8, 32, 1, 0, 0])), Err(RutabagaError::InvalidCommandBuffer));
    assert_eq!(parse_command(&words(&[9, 12])), Err(RutabagaError::InvalidCommandBuffer));
    assert_eq!(parse_command(&words(&[10, 12])), Err(RutabagaError::InvalidCommandBuffer));
}

#[test]
fn parse_rejects_unknown_tag() {
    let expected = Err(RutabagaError::MesaError(MesaError::WithContext(
        "invalid cross domain command",
    )));
    assert_eq!(parse_command(&words(&[0, 8])), expected);
    assert_eq!(parse_command(&words(&[5, 8])), expected);
    assert_eq!(parse_command(&words(&[6, 8])), expected);
    assert_eq!(parse_command(&words(&[11, 8])), expected);
}

#[test]
fn parse_poll_needs_only_the_header() {
    assert_eq!(parse_command(&words(&[3, 8])), Ok(CrossDomainCommand::Poll));
}

#[test]
fn parse_send_checks_the_payload_length() {
    let mut bytes = words(&[4, 69, 0, 5, 0, 0, 0, 0, 0, 0, 0, 0, 0, 0, 0, 0]);
    bytes.extend_from_slice(&[1, 2, 3, 4]);
    assert_eq!(parse_command(&bytes), Err(RutabagaError::InvalidCommandSize(5)));
    bytes.push(5);
    bytes.push(6);
    let cmd = parse_command(&bytes).unwrap();
    assert_eq!(opaque_data(&bytes, &cmd), &[1, 2, 3, 4, 5]);
}

#[test]
fn parse_write_checks_the_payload_length() {
    let mut bytes = words(&[7, 23, 2, 0, 3]);
    bytes.extend_from_slice(&[9, 8]);
    assert_eq!(parse_command(&bytes), Err(RutabagaError::InvalidCommandSize(3)));
    bytes.push(7);
    let cmd = parse_command(&bytes).unwrap();
    assert_eq!(
        cmd,
        CrossDomainCommand::Write(CrossDomainReadWrite {
            hdr: CrossDomainHeader { cmd: 7, cmd_size: 23 },
            identifier: 2,
            hang_up: 0,
            opaque_data_size: 3,
        })
    );
    assert_eq!(opaque_data(&bytes, &cmd), &[9, 8, 7]);
}

#[test]
fn opaque_data_of_other_commands_is_empty() {
    let bytes = words(&[3, 8]);
    let cmd = parse_command(&bytes).unwrap();
    assert!(opaque_data(&bytes, &cmd).is_empty());
}

#[test]
fn next_commands_steps_by_the_declared_size() {
    let mut bytes = words(&[3, 8]);
    bytes.extend_from_slice(&words(&[3, 12, 0xdead]));
    let rest = next_commands(&bytes).unwrap();
    assert_eq!(rest, &words(&[3, 12, 0xdead])[..]);
    let rest = next_commands(rest).unwrap();
    assert!(rest.is_empty());
}

#[test]
fn next_commands_rejects_sizes_beyond_the_buffer() {
    assert_eq!(
        next_commands(&words(&[3, 9])),
        Err(RutabagaError::InvalidCommandSize(9))
    );
    assert_eq!(next_commands(&[3, 0]), Err(RutabagaError::InvalidCommandBuffer));
}

#[test]
fn next_commands_rejects_a_size_of_zero() {
    assert_eq!(
        next_commands(&words(&[3, 0])),
        Err(RutabagaError::InvalidCommandSize(0))
    );
}

#[test]
fn le32_helper_matches_read_u32() {
    assert_eq!(read_u32(&le32(0xcafe_babe), 0), 0xcafe_babe);
}
