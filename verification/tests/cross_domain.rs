use rutabaga_gfx::cross_domain::commands::SendAttachment;
use rutabaga_gfx::cross_domain::commands::SendPlan;
use rutabaga_gfx::cross_domain::commands::WritePlan;
use rutabaga_gfx::cross_domain::context::CrossDomainContext;
use rutabaga_gfx::cross_domain::context::CrossDomainJob;
use rutabaga_gfx::cross_domain::context::FenceAction;
use rutabaga_gfx::cross_domain::context::InitAction;
use rutabaga_gfx::cross_domain::cross_domain_protocol::CrossDomainHeader;
use rutabaga_gfx::cross_domain::cross_domain_protocol::CrossDomainInit;
use rutabaga_gfx::cross_domain::cross_domain_protocol::CrossDomainReadWrite;
use rutabaga_gfx::cross_domain::cross_domain_protocol::CROSS_DOMAIN_FUTEX_START;
use rutabaga_gfx::cross_domain::cross_domain_protocol::CROSS_DOMAIN_ID_TYPE_READ_PIPE;
use rutabaga_gfx::cross_domain::cross_domain_protocol::CROSS_DOMAIN_ID_TYPE_VIRTGPU_BLOB;
use rutabaga_gfx::cross_domain::cross_domain_protocol::CROSS_DOMAIN_ID_TYPE_WRITE_PIPE;
use rutabaga_gfx::cross_domain::cross_domain_protocol::CROSS_DOMAIN_PIPE_READ_START;
use rutabaga_gfx::cross_domain::dispatch::next_commands;
use rutabaga_gfx::cross_domain::dispatch::CommandAction;
use rutabaga_gfx::cross_domain::futex::FutexRequest;
use rutabaga_gfx::cross_domain::futex::FutexResources;
use rutabaga_gfx::cross_domain::futex::FutexShutdown;
use rutabaga_gfx::cross_domain::futex::FutexWake;
use rutabaga_gfx::cross_domain::items::CrossDomainItem;
use rutabaga_gfx::cross_domain::items::CrossDomainItems;
use rutabaga_gfx::cross_domain::ring::pipe_read_capacity;
use rutabaga_gfx::cross_domain::ring::ring_iovec;
use rutabaga_gfx::cross_domain::ring::write_to_ring;
use rutabaga_gfx::cross_domain::ring::RingWrite;
use rutabaga_gfx::cross_domain::worker::classify_event;
use rutabaga_gfx::cross_domain::worker::futex_name;
use rutabaga_gfx::cross_domain::worker::CROSS_DOMAIN_FUTEX_COUNT;
use rutabaga_gfx::cross_domain::worker::DescriptorType;
use rutabaga_gfx::cross_domain::worker::EventSource;
use rutabaga_gfx::cross_domain::worker::FenceOutcome;
use rutabaga_gfx::cross_domain::worker::FenceStep;
use rutabaga_gfx::cross_domain::worker::ReceivedDescriptor;
use rutabaga_gfx::cross_domain::worker::WaitEvent;
use rutabaga_gfx::cross_domain::worker::WaitSetEntry;
use rutabaga_gfx::cross_domain::worker::WorkerAction;
use rutabaga_gfx::cross_domain::CrossDomain;
use rutabaga_gfx::cross_domain::GrallocCapabilities;
use rutabaga_gfx::handle::AhbInfo;
use rutabaga_gfx::handle::MesaHandle;
use rutabaga_gfx::handle::RutabagaHandle;
use rutabaga_gfx::rutabaga_core::RutabagaResource;
use rutabaga_gfx::rutabaga_utils::ImageAllocationInfo;
use rutabaga_gfx::rutabaga_utils::ImageMemoryRequirements;
use rutabaga_gfx::rutabaga_utils::MesaError;
use rutabaga_gfx::rutabaga_utils::Resource3DInfo;
use rutabaga_gfx::rutabaga_utils::ResourceCreateBlob;
use rutabaga_gfx::rutabaga_utils::RutabagaComponentType;
use rutabaga_gfx::rutabaga_utils::RutabagaError;
use rutabaga_gfx::rutabaga_utils::RutabagaFence;
use rutabaga_gfx::rutabaga_utils::RutabagaIovec;
use rutabaga_gfx::rutabaga_utils::RutabagaPath;
use rutabaga_gfx::rutabaga_utils::VulkanInfo;
use rutabaga_gfx::rutabaga_utils::RUTABAGA_BLOB_MEM_GUEST;
use rutabaga_gfx::rutabaga_utils::RUTABAGA_BLOB_MEM_HOST3D;
use rutabaga_gfx::rutabaga_utils::RUTABAGA_FLAG_FENCE;
use rutabaga_gfx::rutabaga_utils::RUTABAGA_HANDLE_TYPE_MEM_DMABUF;
use rutabaga_gfx::rutabaga_utils::RUTABAGA_HANDLE_TYPE_MEM_SHM;

const DRM_FORMAT_ARGB8888: u32 = 0x3432_5241;
const QUERY_RING: u32 = 7;
const CHANNEL_RING: u32 = 8;
const CONNECTION: i32 = 10;
const KILL_EVT: i32 = 11;
const RESAMPLE_EVT: i32 = 12;

fn words(values: &[u32]) -> Vec<u8> {
    let mut out = Vec::new();
    for v in values {
        out.extend_from_slice(&v.to_le_bytes());
    }
    out
}

fn capabilities() -> GrallocCapabilities {
    GrallocCapabilities { supports_dmabuf: true, supports_external_gpu_memory: false }
}

fn wayland_paths() -> Option<Vec<RutabagaPath>> {
    Some(vec![
        RutabagaPath { path: String::from("/dev/dri/renderD128"), path_type: 2 },
        RutabagaPath { path: String::from("/run/wayland-0"), path_type: 1 },
        RutabagaPath { path: String::from("/run/wayland-1"), path_type: 1 },
    ])
}

fn guest_blob(resource_id: u32, len: usize) -> RutabagaResource {
    let component = CrossDomain::init(None, capabilities(), false).unwrap();
    let blob = ResourceCreateBlob {
        blob_mem: RUTABAGA_BLOB_MEM_GUEST,
        blob_flags: 0,
        blob_id: 0,
        size: len as u64,
    };
    let iovecs = vec![RutabagaIovec { base: 0x10_0000 * resource_id as usize, len }];
    component.create_blob(0, resource_id, blob, Some(iovecs)).unwrap()
}

fn host_resource(resource_id: u32, descriptor: i32) -> RutabagaResource {
    RutabagaResource {
        resource_id,
        handle: Some(RutabagaHandle::MesaHandle(MesaHandle {
            os_handle: descriptor,
            handle_type: RUTABAGA_HANDLE_TYPE_MEM_DMABUF,
        })),
        blob: true,
        blob_mem: RUTABAGA_BLOB_MEM_HOST3D,
        blob_flags: 0,
        map_info: None,
        info_2d: None,
        info_3d: None,
        vulkan_info: None,
        backing_iovecs: None,
        component_mask: 8,
        size: 4096,
        guest_cpu_mappable: false,
    }
}

fn new_context(paths: Option<Vec<RutabagaPath>>) -> CrossDomainContext {
    let component = CrossDomain::init(paths, capabilities(), true).unwrap();
    let mut ctx = component.create_context(1, 0, Some("test")).unwrap();
    let mut query = guest_blob(QUERY_RING, 4096);
    ctx.attach(&mut query);
    let mut channel = guest_blob(CHANNEL_RING, 4096);
    ctx.attach(&mut channel);
    ctx
}

fn local_context() -> CrossDomainContext {
    let mut ctx = new_context(None);
    ctx.submit_cmd(&words(&[1, 20, QUERY_RING, CHANNEL_RING, 0])).unwrap();
    ctx
}

fn channelled_context() -> CrossDomainContext {
    let mut ctx = new_context(wayland_paths());
    let cmd = words(&[1, 20, QUERY_RING, CHANNEL_RING, 1]);
    match ctx.submit_cmd(&cmd).unwrap() {
        CommandAction::Init(cmd_init, InitAction::Connect(_)) => {
            ctx.channel_connected(&cmd_init, CONNECTION, KILL_EVT, RESAMPLE_EVT);
        }
        other => panic!("unexpected action {:?}", other),
    }
    ctx
}

fn jobs(ctx: &CrossDomainContext) -> Vec<CrossDomainJob> {
    ctx.state.as_ref().unwrap().jobs.iter().copied().collect()
}

fn fence(fence_id: u64) -> RutabagaFence {
    RutabagaFence { flags: RUTABAGA_FLAG_FENCE, fence_id, ctx_id: 1, ring_idx: 1 }
}

fn requirements(size: u64) -> ImageMemoryRequirements {
    ImageMemoryRequirements {
        info: ImageAllocationInfo {
            width: 64,
            height: 64,
            drm_format: DRM_FORMAT_ARGB8888,
            flags: 0,
        },
        map_info: 0x01,
        strides: [256, 0, 0, 0],
        offsets: [0, 0, 0, 0],
        modifier: 0x0100_0000_0000_0002,
        size,
        vulkan_info: None,
    }
}

fn send_command(identifiers: &[(u32, u32)], count: u32, payload: &[u8]) -> Vec<u8> {
    let mut ids = [0u32; 4];
    let mut types = [0u32; 4];
    for (i, (id, ty)) in identifiers.iter().enumerate() {
        ids[i] = *id;
        types[i] = *ty;
    }
    let mut bytes = words(&[4, 64 + payload.len() as u32, count, payload.len() as u32]);
    bytes.extend_from_slice(&words(&ids));
    bytes.extend_from_slice(&words(&types));
    bytes.extend_from_slice(&words(&[0, 0, 0, 0]));
    bytes.extend_from_slice(payload);
    bytes
}

fn write_command(identifier: u32, hang_up: u32, payload: &[u8]) -> Vec<u8> {
    let mut bytes = words(&[7, 20 + payload.len() as u32, identifier, hang_up, payload.len() as u32]);
    bytes.extend_from_slice(payload);
    bytes
}

fn futex_new_command(id: u32, fs_id: u64, handle: u64) -> Vec<u8> {
    let mut bytes = words(&[8, 32, id, 0]);
    bytes.extend_from_slice(&fs_id.to_le_bytes());
    bytes.extend_from_slice(&handle.to_le_bytes());
    bytes
}

fn install_write_pipe(ctx: &mut CrossDomainContext, descriptor: i32) -> u32 {
    ctx.item_state.add_item(CrossDomainItem::WaylandWritePipe(descriptor)).unwrap()
}

fn bind_futex(ctx: &mut CrossDomainContext, id: u32) {
    let request = match ctx.submit_cmd(&futex_new_command(id, 5, 6)).unwrap() {
        CommandAction::FutexNew(request) => request,
        other => panic!("unexpected action {:?}", other),
    };
    assert_eq!(request, FutexRequest { id, fs_id: 5, handle: 6 });
    let opened = Ok(FutexResources { handle: 20, evt: 21 });
    assert_eq!(ctx.futex_new_complete(id, opened), Ok(()));
}

#[test]
fn legacy_init_initializes_without_a_worker() {
    let mut ctx = new_context(wayland_paths());
    let cmd = words(&[1, 16, QUERY_RING, 0]);
    let action = ctx.submit_cmd(&cmd).unwrap();
    let expected = CrossDomainInit {
        hdr: CrossDomainHeader { cmd: 1, cmd_size: 16 },
        query_ring_id: QUERY_RING,
        channel_ring_id: QUERY_RING,
        channel_type: 0,
    };
    assert_eq!(action, CommandAction::Init(expected, InitAction::Local));
    assert!(next_commands(&cmd).unwrap().is_empty());

    let state = ctx.state.as_ref().unwrap();
    assert_eq!(state.query_ring_id, QUERY_RING);
    assert_eq!(state.channel_ring_id, QUERY_RING);
    assert_eq!(state.connection, None);
    assert!(state.jobs.is_empty());
    assert!(!ctx.worker_thread);
    assert_eq!(ctx.kill_evt, None);
    assert_eq!(ctx.resample_evt, None);
    assert!(ctx.paths.is_some());

    let query = words(&[2, 24, 64, 64, DRM_FORMAT_ARGB8888, 0]);
    let expected_info = ImageAllocationInfo {
        width: 64,
        height: 64,
        drm_format: DRM_FORMAT_ARGB8888,
        flags: 0,
    };
    assert_eq!(ctx.submit_cmd(&query), Ok(CommandAction::GetImageRequirements(expected_info)));
    let update = ctx.get_image_requirements(requirements(16384)).unwrap();
    assert_eq!(update.resource_id, QUERY_RING);
}

#[test]
fn legacy_init_equals_full_init_with_the_query_ring_twice() {
    let mut legacy = new_context(None);
    let mut full = new_context(None);
    let legacy_bytes = words(&[1, 16, QUERY_RING, 0]);
    let full_bytes = words(&[1, 20, QUERY_RING, QUERY_RING, 0]);
    let a = legacy.submit_cmd(&legacy_bytes).unwrap();
    let b = full.submit_cmd(&full_bytes).unwrap();
    match (a, b) {
        (CommandAction::Init(x, InitAction::Local), CommandAction::Init(y, InitAction::Local)) => {
            assert_eq!(x.query_ring_id, y.query_ring_id);
            assert_eq!(x.channel_ring_id, y.channel_ring_id);
            assert_eq!(x.channel_type, y.channel_type);
        }
        other => panic!("unexpected actions {:?}", other),
    }
    let l = legacy.state.as_ref().unwrap();
    let f = full.state.as_ref().unwrap();
    assert_eq!(l.query_ring_id, f.query_ring_id);
    assert_eq!(l.channel_ring_id, f.channel_ring_id);
    assert_eq!(l.connection, f.connection);
    assert_eq!(l.jobs, f.jobs);
}

#[test]
fn init_rejects_unknown_rings() {
    let mut ctx = new_context(wayland_paths());
    assert_eq!(
        ctx.submit_cmd(&words(&[1, 20, 99, CHANNEL_RING, 0])),
        Err(RutabagaError::InvalidResourceId)
    );
    assert_eq!(
        ctx.submit_cmd(&words(&[1, 20, QUERY_RING, 99, 1])),
        Err(RutabagaError::InvalidResourceId)
    );
    assert!(ctx.state.is_none());
    assert!(ctx.paths.is_some());
    // Without a channel the channel ring is not looked at.
    assert!(ctx.submit_cmd(&words(&[1, 20, QUERY_RING, 99, 0])).is_ok());
}

#[test]
fn init_takes_the_first_path_of_the_channel_type() {
    let mut ctx = new_context(wayland_paths());
    let cmd = words(&[1, 20, QUERY_RING, CHANNEL_RING, 1]);
    let action = ctx.submit_cmd(&cmd).unwrap();
    let cmd_init = CrossDomainInit {
        hdr: CrossDomainHeader { cmd: 1, cmd_size: 20 },
        query_ring_id: QUERY_RING,
        channel_ring_id: CHANNEL_RING,
        channel_type: 1,
    };
    assert_eq!(
        action,
        CommandAction::Init(cmd_init, InitAction::Connect(String::from("/run/wayland-0")))
    );
    assert!(ctx.paths.is_none());
    assert!(ctx.state.is_none());
    ctx.channel_connected(&cmd_init, CONNECTION, KILL_EVT, RESAMPLE_EVT);
    let state = ctx.state.as_ref().unwrap();
    assert_eq!(state.connection, Some(CONNECTION));
    assert_eq!(state.query_ring_id, QUERY_RING);
    assert_eq!(state.channel_ring_id, CHANNEL_RING);
    assert!(ctx.worker_thread);
    assert_eq!(ctx.kill_evt, Some(KILL_EVT));
    assert_eq!(ctx.resample_evt, Some(RESAMPLE_EVT));
}

#[test]
fn init_without_a_matching_path_uses_the_paths_up() {
    let mut ctx = new_context(wayland_paths());
    let cmd = words(&[1, 20, QUERY_RING, CHANNEL_RING, 3]);
    assert_eq!(ctx.submit_cmd(&cmd), Err(RutabagaError::InvalidCrossDomainChannel));
    assert!(ctx.paths.is_none());
    let cmd = words(&[1, 20, QUERY_RING, CHANNEL_RING, 1]);
    assert_eq!(ctx.submit_cmd(&cmd), Err(RutabagaError::InvalidCrossDomainChannel));
}

#[test]
fn image_requirements_round_trip() {
    let mut ctx = local_context();
    let update = ctx.get_image_requirements(requirements(16384)).unwrap();
    assert_eq!(update.resource_id, QUERY_RING);
    assert_eq!(update.iovec, RutabagaIovec { base: 0x70_0000, len: 4096 });
    assert_eq!(update.data.len(), 64);

    let mut ring = vec![0xeeu8; 4096];
    assert!(update.apply(&mut ring));
    assert_eq!(&ring[0..16], &words(&[256, 0, 0, 0])[..]);
    assert_eq!(&ring[16..32], &words(&[0, 0, 0, 0])[..]);
    assert_eq!(&ring[32..40], &0x0100_0000_0000_0002u64.to_le_bytes());
    assert_eq!(&ring[40..48], &16384u64.to_le_bytes());
    assert_eq!(&ring[48..52], &2u32.to_le_bytes());
    assert_eq!(&ring[52..56], &1u32.to_le_bytes());
    assert_eq!(&ring[56..64], &[0xff; 8]);
    assert!(ring[64..].iter().all(|b| *b == 0xee));

    assert_eq!(
        ctx.item_state.get(2),
        Some(CrossDomainItem::ImageRequirements(requirements(16384)))
    );
    assert_eq!(ctx.item_state.descriptor_id(), 2);
}

#[test]
fn image_requirements_report_the_vulkan_memory_index() {
    let mut ctx = local_context();
    let mut reqs = requirements(4096);
    reqs.vulkan_info = Some(VulkanInfo {
        memory_idx: 5,
        device_uuid: [1; 16],
        driver_uuid: [2; 16],
    });
    let update = ctx.get_image_requirements(reqs).unwrap();
    assert_eq!(&update.data[56..60], &5u32.to_le_bytes());
    assert_eq!(&update.data[60..64], &[0xff; 4]);
}

#[test]
fn image_requirements_need_an_initialized_context() {
    let mut ctx = new_context(None);
    assert_eq!(
        ctx.get_image_requirements(requirements(4096)),
        Err(RutabagaError::InvalidCrossDomainState)
    );
    assert!((ctx.item_state.len() == 0));
    assert_eq!(ctx.item_state.descriptor_id(), 1);
}

#[test]
fn image_requirements_stay_when_the_ring_is_too_small() {
    let mut ctx = new_context(None);
    let mut small = guest_blob(30, 63);
    ctx.attach(&mut small);
    ctx.submit_cmd(&words(&[1, 20, 30, 30, 0])).unwrap();
    assert_eq!(
        ctx.get_image_requirements(requirements(4096)),
        Err(RutabagaError::InvalidIovec)
    );
    assert!(ctx.item_state.get(2).is_some());
}

#[test]
fn send_with_read_pipe() {
    let mut ctx = channelled_context();
    let pipe_id = CROSS_DOMAIN_PIPE_READ_START + 1;
    let payload = [1u8, 2, 3, 4, 5, 6, 7, 8, 9, 10, 11, 12];
    let cmd = send_command(&[(pipe_id, CROSS_DOMAIN_ID_TYPE_READ_PIPE)], 1, &payload);
    let (plan, data) = match ctx.submit_cmd(&cmd).unwrap() {
        CommandAction::Send(plan, data) => (plan, data),
        other => panic!("unexpected action {:?}", other),
    };
    assert_eq!(
        plan,
        SendPlan {
            connection: CONNECTION,
            attachments: vec![SendAttachment::WritePipe],
            read_pipe_id: Some(pipe_id),
        }
    );
    assert_eq!(data, &payload);
    assert_eq!(ctx.item_state.get(pipe_id), Some(CrossDomainItem::WaylandReadPipe));
    assert_eq!(ctx.item_state.len(), 1);
    assert!(jobs(&ctx).is_empty());

    assert_eq!(ctx.send_complete(plan.read_pipe_id, Ok(12)), Ok(Some(RESAMPLE_EVT)));
    assert_eq!(jobs(&ctx), vec![CrossDomainJob::AddReadPipe(pipe_id)]);
    assert_eq!(
        ctx.run(CrossDomainJob::AddReadPipe(pipe_id)),
        Ok(WorkerAction::Watch(pipe_id as u64, WaitSetEntry::ReadPipe(pipe_id)))
    );
}

#[test]
fn send_attaches_resources_in_order() {
    let mut ctx = channelled_context();
    let mut a = host_resource(40, 100);
    ctx.attach(&mut a);
    let mut b = host_resource(41, 101);
    ctx.attach(&mut b);
    let pipe_id = CROSS_DOMAIN_PIPE_READ_START + 1;
    let cmd = send_command(
        &[
            (41, CROSS_DOMAIN_ID_TYPE_VIRTGPU_BLOB),
            (pipe_id, CROSS_DOMAIN_ID_TYPE_READ_PIPE),
            (40, CROSS_DOMAIN_ID_TYPE_VIRTGPU_BLOB),
            (77, 9),
        ],
        3,
        &[],
    );
    match ctx.submit_cmd(&cmd).unwrap() {
        CommandAction::Send(plan, data) => {
            assert_eq!(
                plan.attachments,
                vec![
                    SendAttachment::Descriptor(101),
                    SendAttachment::WritePipe,
                    SendAttachment::Descriptor(100),
                ]
            );
            assert_eq!(plan.read_pipe_id, Some(pipe_id));
            assert!(data.is_empty());
        }
        other => panic!("unexpected action {:?}", other),
    }
}

#[test]
fn send_without_identifiers_sends_the_payload_alone() {
    let mut ctx = channelled_context();
    let cmd = send_command(&[], 0, &[9, 9]);
    match ctx.submit_cmd(&cmd).unwrap() {
        CommandAction::Send(plan, data) => {
            assert!(plan.attachments.is_empty());
            assert_eq!(plan.read_pipe_id, None);
            assert_eq!(data, &[9, 9]);
            assert_eq!(ctx.send_complete(plan.read_pipe_id, Ok(2)), Ok(None));
        }
        other => panic!("unexpected action {:?}", other),
    }
    assert!(jobs(&ctx).is_empty());
    assert!((ctx.item_state.len() == 0));
}

#[test]
fn send_rejects_a_wrong_guess_of_the_pipe_identifier() {
    let mut ctx = channelled_context();
    let cmd = send_command(
        &[(CROSS_DOMAIN_PIPE_READ_START + 2, CROSS_DOMAIN_ID_TYPE_READ_PIPE)],
        1,
        &[],
    );
    assert_eq!(ctx.submit_cmd(&cmd), Err(RutabagaError::InvalidCrossDomainItemId));
    // The pipe that was made for the message stays in the table.
    assert_eq!(
        ctx.item_state.get(CROSS_DOMAIN_PIPE_READ_START + 1),
        Some(CrossDomainItem::WaylandReadPipe)
    );
}

#[test]
fn send_rejects_more_than_the_maximum_of_identifiers() {
    let mut ctx = channelled_context();
    let pipe_id = CROSS_DOMAIN_PIPE_READ_START + 1;
    let cmd = send_command(&[(pipe_id, CROSS_DOMAIN_ID_TYPE_READ_PIPE)], 5, &[]);
    assert_eq!(
        ctx.submit_cmd(&cmd),
        Err(RutabagaError::MesaError(MesaError::WithContext(
            "max cross domain identifiers exceeded"
        )))
    );
    assert!((ctx.item_state.len() == 0));
    assert_eq!(ctx.item_state.read_pipe_id(), CROSS_DOMAIN_PIPE_READ_START);
    assert!(jobs(&ctx).is_empty());
}

#[test]
fn send_accepts_the_maximum_of_identifiers() {
    let mut ctx = channelled_context();
    for id in 40..44 {
        let mut r = host_resource(id, 100 + id as i32);
        ctx.attach(&mut r);
    }
    let cmd = send_command(&[(40, 1), (41, 1), (42, 1), (43, 1)], 4, &[]);
    match ctx.submit_cmd(&cmd).unwrap() {
        CommandAction::Send(plan, _) => assert_eq!(plan.attachments.len(), 4),
        other => panic!("unexpected action {:?}", other),
    }
}

#[test]
fn send_rejects_two_pipe_pairs() {
    let mut ctx = channelled_context();
    let cmd = send_command(
        &[
            (CROSS_DOMAIN_PIPE_READ_START + 1, CROSS_DOMAIN_ID_TYPE_READ_PIPE),
            (CROSS_DOMAIN_PIPE_READ_START + 2, CROSS_DOMAIN_ID_TYPE_READ_PIPE),
        ],
        2,
        &[],
    );
    assert_eq!(
        ctx.submit_cmd(&cmd),
        Err(RutabagaError::MesaError(MesaError::WithContext("expected just one pipe pair")))
    );
    assert_eq!(ctx.item_state.len(), 1);
}

#[test]
fn send_rejects_unknown_resources_and_types() {
    let mut ctx = channelled_context();
    let cmd = send_command(&[(55, CROSS_DOMAIN_ID_TYPE_VIRTGPU_BLOB)], 1, &[]);
    assert_eq!(ctx.submit_cmd(&cmd), Err(RutabagaError::InvalidResourceId));
    let cmd = send_command(&[(QUERY_RING, CROSS_DOMAIN_ID_TYPE_VIRTGPU_BLOB)], 1, &[]);
    assert_eq!(
        ctx.submit_cmd(&cmd),
        Err(RutabagaError::MesaError(MesaError::InvalidMesaHandle))
    );
    let cmd = send_command(&[(1, CROSS_DOMAIN_ID_TYPE_WRITE_PIPE)], 1, &[]);
    assert_eq!(ctx.submit_cmd(&cmd), Err(RutabagaError::InvalidCrossDomainItemType));
}

#[test]
fn send_rejects_resources_with_hardware_buffers() {
    let mut ctx = channelled_context();
    let mut r = host_resource(40, 100);
    r.handle = Some(RutabagaHandle::AhbInfo(AhbInfo { fds: vec![3], metadata: vec![1, 2] }));
    ctx.attach(&mut r);
    let cmd = send_command(&[(40, CROSS_DOMAIN_ID_TYPE_VIRTGPU_BLOB)], 1, &[]);
    assert_eq!(
        ctx.submit_cmd(&cmd),
        Err(RutabagaError::MesaError(MesaError::InvalidMesaHandle))
    );
}

#[test]
fn send_needs_a_channel() {
    let mut ctx = local_context();
    let cmd = send_command(&[], 0, &[1]);
    assert_eq!(ctx.submit_cmd(&cmd), Err(RutabagaError::InvalidCrossDomainState));
    let mut ctx = new_context(None);
    assert_eq!(ctx.submit_cmd(&cmd), Err(RutabagaError::InvalidCrossDomainState));
}

#[test]
fn failed_send_leaves_only_the_read_pipe() {
    let mut ctx = channelled_context();
    let pipe_id = CROSS_DOMAIN_PIPE_READ_START + 1;
    let cmd = send_command(&[(pipe_id, CROSS_DOMAIN_ID_TYPE_READ_PIPE)], 1, &[1, 2, 3]);
    let plan = match ctx.submit_cmd(&cmd).unwrap() {
        CommandAction::Send(plan, _) => plan,
        other => panic!("unexpected action {:?}", other),
    };
    let error = RutabagaError::MesaError(MesaError::IoError(32));
    assert_eq!(ctx.send_complete(plan.read_pipe_id, Err(error)), Err(error));
    assert!(jobs(&ctx).is_empty());
    assert_eq!(ctx.item_state.len(), 1);
    assert_eq!(ctx.item_state.get(pipe_id), Some(CrossDomainItem::WaylandReadPipe));
    // The pipe is handed out when the context ends.
    let teardown = ctx.release();
    assert_eq!(teardown.items.get(&pipe_id).copied(), Some(CrossDomainItem::WaylandReadPipe));
}

#[test]
fn write_keeps_the_pipe_until_hang_up() {
    let mut ctx = local_context();
    let id = install_write_pipe(&mut ctx, 50);
    assert_eq!(id, 2);
    let cmd = write_command(id, 0, &[1, 2, 3]);
    let (plan, data) = match ctx.submit_cmd(&cmd).unwrap() {
        CommandAction::Write(plan, data) => (plan, data),
        other => panic!("unexpected action {:?}", other),
    };
    assert_eq!(plan, WritePlan { identifier: id, descriptor: 50, write: true, hang_up: false });
    assert_eq!(data, &[1, 2, 3]);
    assert_eq!(ctx.write_complete(&plan, Ok(3)), Ok(()));
    assert_eq!(ctx.item_state.get(id), Some(CrossDomainItem::WaylandWritePipe(50)));

    let cmd = write_command(id, 1, &[]);
    let plan = match ctx.submit_cmd(&cmd).unwrap() {
        CommandAction::Write(plan, _) => plan,
        other => panic!("unexpected action {:?}", other),
    };
    assert_eq!(plan, WritePlan { identifier: id, descriptor: 50, write: false, hang_up: true });
    assert_eq!(ctx.write_complete(&plan, Ok(0)), Ok(()));
    assert!(ctx.item_state.get(id).is_none());
}

#[test]
fn write_after_hang_up_fails_with_invalid_item_id() {
    let mut ctx = local_context();
    install_write_pipe(&mut ctx, 48);
    install_write_pipe(&mut ctx, 49);
    let id = install_write_pipe(&mut ctx, 50);
    assert_eq!(id, 4);
    let plan = match ctx.submit_cmd(&write_command(id, 1, &[7])).unwrap() {
        CommandAction::Write(plan, _) => plan,
        other => panic!("unexpected action {:?}", other),
    };
    ctx.write_complete(&plan, Ok(1)).unwrap();
    assert_eq!(
        ctx.submit_cmd(&write_command(id, 0, &[7])),
        Err(RutabagaError::InvalidCrossDomainItemId)
    );
    let blob = ResourceCreateBlob { blob_mem: 2, blob_flags: 0, blob_id: id as u64, size: 0 };
    assert_eq!(
        ctx.context_create_blob(1, blob, None),
        Err(RutabagaError::InvalidCrossDomainItemId)
    );
    let event = WaitEvent { connection_id: id as u64, hung_up: false, readable: true };
    assert_eq!(
        ctx.handle_fence(fence(1), Some(event)),
        Err(RutabagaError::InvalidCrossDomainItemId)
    );
}

#[test]
fn failed_write_drops_the_pipe() {
    let mut ctx = local_context();
    let id = install_write_pipe(&mut ctx, 50);
    let plan = ctx
        .write(&CrossDomainReadWrite {
            hdr: CrossDomainHeader { cmd: 7, cmd_size: 21 },
            identifier: id,
            hang_up: 0,
            opaque_data_size: 1,
        })
        .unwrap();
    let error = RutabagaError::MesaError(MesaError::IoError(32));
    assert_eq!(ctx.write_complete(&plan, Err(error)), Err(error));
    assert!(ctx.item_state.get(id).is_none());
}

#[test]
fn write_to_other_items_fails_and_drops_them() {
    let mut ctx = local_context();
    ctx.get_image_requirements(requirements(4096)).unwrap();
    assert_eq!(
        ctx.submit_cmd(&write_command(2, 0, &[1])),
        Err(RutabagaError::InvalidCrossDomainItemType)
    );
    assert!(ctx.item_state.get(2).is_none());
    assert_eq!(
        ctx.submit_cmd(&write_command(2, 0, &[1])),
        Err(RutabagaError::InvalidCrossDomainItemId)
    );
}

#[test]
fn poll_does_nothing() {
    let mut ctx = new_context(None);
    assert_eq!(ctx.submit_cmd(&words(&[3, 8])), Ok(CommandAction::Poll));
    assert!(ctx.state.is_none());
}

#[test]
fn empty_buffer_is_done_and_changes_nothing() {
    let mut ctx = new_context(wayland_paths());
    assert_eq!(ctx.submit_cmd(&[]), Ok(CommandAction::Done));
    assert!(ctx.state.is_none());
    assert!(ctx.paths.is_some());
    let mut ctx = channelled_context();
    assert_eq!(ctx.submit_cmd(&[]), Ok(CommandAction::Done));
    assert!(jobs(&ctx).is_empty());
    assert_eq!(ctx.item_state.len(), 0);
}

#[test]
fn commands_run_in_order_until_the_buffer_is_empty() {
    let mut ctx = new_context(None);
    install_write_pipe(&mut ctx, 48);
    let mut buffer = words(&[3, 8]);
    buffer.extend_from_slice(&words(&[1, 20, QUERY_RING, CHANNEL_RING, 0]));
    buffer.extend_from_slice(&write_command(2, 1, &[7, 7, 7]));
    buffer.extend_from_slice(&words(&[3, 8]));

    let mut commands: &[u8] = &buffer;
    let mut seen = Vec::new();
    loop {
        match ctx.submit_cmd(commands).unwrap() {
            CommandAction::Done => break,
            CommandAction::Poll => seen.push("poll"),
            CommandAction::Init(_, InitAction::Local) => seen.push("init"),
            CommandAction::Write(plan, data) => {
                assert_eq!(data, &[7, 7, 7]);
                ctx.write_complete(&plan, Ok(3)).unwrap();
                seen.push("write");
            }
            other => panic!("unexpected action {:?}", other),
        }
        commands = next_commands(commands).unwrap();
    }
    assert_eq!(seen, vec!["poll", "init", "write", "poll"]);
    assert!(commands.is_empty());
    assert!(ctx.state.is_some());
    assert!(ctx.item_state.get(2).is_none());
}

#[test]
fn commands_stop_at_the_first_error() {
    let mut ctx = local_context();
    let mut buffer = words(&[3, 8]);
    buffer.extend_from_slice(&words(&[0x77, 8]));
    buffer.extend_from_slice(&words(&[1, 20, 99, 99, 0]));
    let commands: &[u8] = &buffer;
    assert_eq!(ctx.submit_cmd(commands), Ok(CommandAction::Poll));
    let commands = next_commands(commands).unwrap();
    assert_eq!(
        ctx.submit_cmd(commands),
        Err(RutabagaError::MesaError(MesaError::WithContext("invalid cross domain command")))
    );
    // A tail that is shorter than a header.
    let mut buffer = words(&[3, 8]);
    buffer.extend_from_slice(&[3, 0, 0]);
    let commands: &[u8] = &buffer;
    assert_eq!(ctx.submit_cmd(commands), Ok(CommandAction::Poll));
    let commands = next_commands(commands).unwrap();
    assert_eq!(ctx.submit_cmd(commands), Err(RutabagaError::InvalidCommandBuffer));
}

#[test]
fn command_that_declares_more_than_the_buffer_holds_runs_and_then_fails() {
    let mut ctx = local_context();
    let buffer = words(&[3, 16]);
    assert_eq!(ctx.submit_cmd(&buffer), Ok(CommandAction::Poll));
    assert_eq!(next_commands(&buffer), Err(RutabagaError::InvalidCommandSize(16)));
}

#[test]
fn submit_rejects_what_does_not_decode() {
    let mut ctx = local_context();
    assert_eq!(ctx.submit_cmd(&[1, 2, 3]), Err(RutabagaError::InvalidCommandBuffer));
    assert_eq!(
        ctx.submit_cmd(&words(&[0x77, 8])),
        Err(RutabagaError::MesaError(MesaError::WithContext("invalid cross domain command")))
    );
    assert_eq!(
        ctx.submit_cmd(&words(&[7, 20, 2, 0, 1])),
        Err(RutabagaError::InvalidCommandSize(1))
    );
}

#[test]
fn descriptor_identifiers_count_up_from_two() {
    let mut items = CrossDomainItems::new();
    assert_eq!(items.add_item(CrossDomainItem::WaylandWritePipe(5)), Ok(2));
    assert_eq!(items.add_item(CrossDomainItem::ImageRequirements(requirements(1))), Ok(3));
    assert_eq!(
        items.add_item(CrossDomainItem::Blob(MesaHandle { os_handle: 6, handle_type: 4 })),
        Ok(4)
    );
    assert_eq!(items.descriptor_id(), 4);
    assert_eq!(items.read_pipe_id(), CROSS_DOMAIN_PIPE_READ_START);
}

#[test]
fn read_pipe_identifiers_count_up_from_their_start() {
    let mut items = CrossDomainItems::new();
    assert_eq!(items.add_item(CrossDomainItem::WaylandReadPipe), Ok(0x8000_0001));
    assert_eq!(items.add_item(CrossDomainItem::WaylandWritePipe(5)), Ok(2));
    assert_eq!(items.add_item(CrossDomainItem::WaylandReadPipe), Ok(0x8000_0002));
    assert_eq!(items.descriptor_id(), 2);
    assert_eq!(items.read_pipe_id(), 0x8000_0002);
    assert_eq!(items.len(), 3);
}

#[test]
fn identifiers_run_out_without_changing_the_table() {
    assert!(CrossDomainItems::with_counters(0, CROSS_DOMAIN_PIPE_READ_START).is_none());
    assert!(CrossDomainItems::with_counters(CROSS_DOMAIN_FUTEX_START, u32::MAX).is_none());
    assert!(CrossDomainItems::with_counters(1, CROSS_DOMAIN_PIPE_READ_START - 1).is_none());
    let mut items =
        CrossDomainItems::with_counters(CROSS_DOMAIN_FUTEX_START - 2, u32::MAX - 1).unwrap();
    assert_eq!(
        items.add_item(CrossDomainItem::WaylandWritePipe(5)),
        Ok(CROSS_DOMAIN_FUTEX_START - 1)
    );
    assert_eq!(
        items.add_item(CrossDomainItem::WaylandWritePipe(6)),
        Err(RutabagaError::InvalidCrossDomainItemId)
    );
    assert_eq!(items.len(), 1);
    assert_eq!(items.add_item(CrossDomainItem::WaylandReadPipe), Ok(u32::MAX));
    assert_eq!(
        items.add_item(CrossDomainItem::WaylandReadPipe),
        Err(RutabagaError::InvalidCrossDomainItemId)
    );
    assert_eq!(items.len(), 2);
}

#[test]
fn events_are_told_apart_by_their_names() {
    assert_eq!(classify_event(1), EventSource::Channel);
    assert_eq!(classify_event(2), EventSource::Resample);
    assert_eq!(classify_event(3), EventSource::Kill);
    assert_eq!(classify_event(0), EventSource::Item(0));
    assert_eq!(classify_event(4), EventSource::Item(4));
    assert_eq!(classify_event(0x3fff_ffff), EventSource::Item(0x3fff_ffff));
    assert_eq!(classify_event(0x4000_0000), EventSource::Futex(0));
    assert_eq!(classify_event(0x4000_0001), EventSource::Futex(1));
    assert_eq!(classify_event(0x7fff_ffff), EventSource::Futex(0x3fff_ffff));
    assert_eq!(classify_event(0x8000_0000), EventSource::Item(0x8000_0000));
    assert_eq!(classify_event(0xffff_ffff), EventSource::Item(0xffff_ffff));
    assert_eq!(classify_event(0x1_0000_0000), EventSource::Unknown);
}

#[test]
fn futex_signal() {
    let mut ctx = channelled_context();
    let id = 1;
    let name = CROSS_DOMAIN_FUTEX_START as u64 + 1;
    bind_futex(&mut ctx, id);
    assert_eq!(jobs(&ctx), vec![CrossDomainJob::AddFutex(id, 21)]);
    assert_eq!(
        ctx.run(CrossDomainJob::AddFutex(id, 21)),
        Ok(WorkerAction::Watch(name, WaitSetEntry::Futex(id, 21)))
    );
    assert_eq!(classify_event(name), EventSource::Futex(id));

    // The guest wakes its own waiters with every bit but the watcher's.
    assert_eq!(
        ctx.submit_cmd(&words(&[9, 12, id])),
        Ok(CommandAction::FutexSignal(Some(FutexWake {
            handle: 20,
            waiters: i32::MAX,
            bitset: 0xffff_fffe,
        })))
    );

    // The watcher saw the word change: the worker tells the guest.
    let event = WaitEvent { connection_id: name, hung_up: false, readable: true };
    let outcome = match ctx.handle_fence(fence(9), Some(event)).unwrap() {
        FenceStep::Done(outcome) => outcome,
        other => panic!("unexpected step {:?}", other),
    };
    assert_eq!(outcome.drain, Some(21));
    assert_eq!(outcome.deregister, None);
    assert_eq!(outcome.signal, Some(fence(9)));
    assert!(!outcome.requeued);
    let update = outcome.ring_update.unwrap();
    assert_eq!(update.resource_id, CHANNEL_RING);
    assert_eq!(update.iovec, RutabagaIovec { base: 0x80_0000, len: 4096 });
    assert_eq!(update.data, words(&[9, 0, 1]));
    let mut ring = vec![0xeeu8; 4096];
    assert!(update.apply(&mut ring));
    assert_eq!(&ring[0..12], &words(&[9, 0, 1])[..]);
    assert!(ring[12..].iter().all(|b| *b == 0xee));
    assert_eq!(jobs(&ctx), vec![CrossDomainJob::AddFutex(id, 21)]);
    assert!(ctx.futexes.contains_key(&id));
}

#[test]
fn futex_under_the_identifier_of_a_fixed_name_is_told_apart() {
    // Futexes 1, 2 and 3 share their numbers with the connection, the
    // resample event and the kill event, but not their names.
    let mut ctx = channelled_context();
    for id in 1..4u32 {
        let request = ctx.futex_new(&rutabaga_gfx::cross_domain::cross_domain_protocol::CrossDomainFutexNew {
            hdr: CrossDomainHeader { cmd: 8, cmd_size: 32 },
            id,
            pad: 0,
            fs_id: 5,
            handle: 6,
        });
        assert_eq!(request, Ok(FutexRequest { id, fs_id: 5, handle: 6 }));
        let opened = Ok(FutexResources { handle: 20 + id as i32, evt: 30 + id as i32 });
        assert_eq!(ctx.futex_new_complete(id, opened), Ok(()));
    }
    let event = WaitEvent { connection_id: 1, hung_up: false, readable: true };
    assert_eq!(ctx.handle_fence(fence(1), Some(event)), Ok(FenceStep::Receive(CONNECTION)));
    let event = WaitEvent {
        connection_id: futex_name(2).unwrap(),
        hung_up: false,
        readable: true,
    };
    match ctx.handle_fence(fence(2), Some(event)).unwrap() {
        FenceStep::Done(outcome) => {
            assert_eq!(outcome.drain, Some(32));
            assert_eq!(outcome.ring_update.unwrap().data, words(&[9, 0, 2]));
            assert_eq!(outcome.signal, Some(fence(2)));
        }
        other => panic!("unexpected step {:?}", other),
    }
}

#[test]
fn futex_names_lie_between_the_items() {
    assert_eq!(futex_name(0), Some(0x4000_0000));
    assert_eq!(futex_name(1), Some(0x4000_0001));
    assert_eq!(futex_name(0x3fff_ffff), Some(0x7fff_ffff));
    assert_eq!(futex_name(0x4000_0000), None);
    assert_eq!(futex_name(0x8000_0001), None);
    assert_eq!(futex_name(u32::MAX), None);
    assert_eq!(CROSS_DOMAIN_FUTEX_COUNT, CROSS_DOMAIN_PIPE_READ_START - CROSS_DOMAIN_FUTEX_START);
}

#[test]
fn futex_new_rejects_identifiers_without_a_name() {
    let mut ctx = channelled_context();
    for id in [0x4000_0000u32, 0x4000_0001, 0x8000_0001, u32::MAX] {
        assert_eq!(
            ctx.submit_cmd(&futex_new_command(id, 5, 6)),
            Err(RutabagaError::InvalidCrossDomainItemId)
        );
        assert_eq!(
            ctx.futex_new_complete(id, Ok(FutexResources { handle: 20, evt: 21 })),
            Err(RutabagaError::InvalidCrossDomainItemId)
        );
        assert_eq!(
            ctx.run(CrossDomainJob::AddFutex(id, 21)),
            Err(RutabagaError::InvalidCrossDomainItemId)
        );
    }
    assert!(ctx.futexes.is_empty());
    assert!(jobs(&ctx).is_empty());

    // The last identifier with a name.
    bind_futex(&mut ctx, 0x3fff_ffff);
    assert_eq!(
        ctx.run(CrossDomainJob::AddFutex(0x3fff_ffff, 21)),
        Ok(WorkerAction::Watch(0x7fff_ffff, WaitSetEntry::Futex(0x3fff_ffff, 21)))
    );
    // The first one.
    let mut ctx = channelled_context();
    bind_futex(&mut ctx, 0);
    assert_eq!(
        ctx.run(CrossDomainJob::AddFutex(0, 21)),
        Ok(WorkerAction::Watch(0x4000_0000, WaitSetEntry::Futex(0, 21)))
    );
}

#[test]
fn futex_new_rejects_an_identifier_in_use() {
    let mut ctx = channelled_context();
    let id = 1;
    bind_futex(&mut ctx, id);
    assert_eq!(
        ctx.submit_cmd(&futex_new_command(id, 1, 2)),
        Err(RutabagaError::AlreadyInUse)
    );
    assert_eq!(
        ctx.futex_new_complete(id, Ok(FutexResources { handle: 30, evt: 31 })),
        Err(RutabagaError::AlreadyInUse)
    );
    assert_eq!(ctx.futexes.get(&id).unwrap().handle, 20);
}

#[test]
fn futex_new_needs_a_file_table_and_a_state() {
    let component = CrossDomain::init(None, capabilities(), false).unwrap();
    let mut ctx = component.create_context(1, 0, None).unwrap();
    assert_eq!(
        ctx.submit_cmd(&futex_new_command(1, 1, 2)),
        Err(RutabagaError::InvalidCrossDomainItemId)
    );
    let mut ctx = new_context(None);
    assert!(ctx.submit_cmd(&futex_new_command(1, 1, 2)).is_ok());
    assert_eq!(
        ctx.futex_new_complete(1, Ok(FutexResources { handle: 30, evt: 31 })),
        Err(RutabagaError::InvalidCrossDomainState)
    );
    assert!(ctx.futexes.is_empty());
}

#[test]
fn futex_new_passes_on_why_nothing_was_opened() {
    let mut ctx = channelled_context();
    let error = RutabagaError::MesaError(MesaError::WithContext("mmap failed"));
    assert_eq!(ctx.futex_new_complete(1, Err(error)), Err(error));
    assert!(ctx.futexes.is_empty());
    assert!(jobs(&ctx).is_empty());
}

#[test]
fn futex_signal_of_an_unknown_futex_fails() {
    let mut ctx = channelled_context();
    assert_eq!(
        ctx.submit_cmd(&words(&[9, 12, 5])),
        Err(RutabagaError::InvalidCrossDomainItemId)
    );
    assert_eq!(
        ctx.submit_cmd(&words(&[10, 12, 5])),
        Err(RutabagaError::InvalidCrossDomainItemId)
    );
}

#[test]
fn futex_destroy_ordering() {
    let mut ctx = channelled_context();
    let id = 1;
    let name = futex_name(id).unwrap();
    bind_futex(&mut ctx, id);
    ctx.wait_for_job();
    assert_eq!(
        ctx.submit_cmd(&words(&[10, 12, id])),
        Ok(CommandAction::FutexDestroy(FutexShutdown { id, handle: 20, evt: 21 }))
    );
    // The entry stays until the worker hears from the futex's event.
    assert!(ctx.futexes.get(&id).unwrap().shutdown);
    // The identifier is still bound: a signal is no error, but there is
    // no word left to wake on.
    assert_eq!(ctx.submit_cmd(&words(&[9, 12, id])), Ok(CommandAction::FutexSignal(None)));
    assert!(ctx.futexes.get(&id).unwrap().shutdown);
    assert_eq!(
        ctx.submit_cmd(&words(&[10, 12, id])),
        Err(RutabagaError::InvalidCrossDomainItemId)
    );
    assert_eq!(
        ctx.submit_cmd(&futex_new_command(id, 1, 2)),
        Err(RutabagaError::AlreadyInUse)
    );

    // The first job to handle a fence after the destroy.
    ctx.context_create_fence(fence(3)).unwrap();
    assert_eq!(ctx.wait_for_job(), Some(CrossDomainJob::HandleFence(fence(3))));
    let event = WaitEvent { connection_id: name, hung_up: false, readable: true };
    let step = ctx.handle_fence(fence(3), Some(event)).unwrap();
    assert_eq!(
        step,
        FenceStep::Done(FenceOutcome {
            drain: None,
            deregister: Some(WaitSetEntry::Futex(id, 21)),
            ring_update: None,
            signal: None,
            requeued: true,
        })
    );
    assert!(!ctx.futexes.contains_key(&id));
    assert_eq!(jobs(&ctx), vec![CrossDomainJob::HandleFence(fence(3))]);
    // The identifier is unbound: a signal fails, and the identifier is
    // free again.
    assert_eq!(
        ctx.submit_cmd(&words(&[9, 12, id])),
        Err(RutabagaError::InvalidCrossDomainItemId)
    );
    assert!(ctx.submit_cmd(&futex_new_command(id, 1, 2)).is_ok());
}

#[test]
fn events_that_put_the_fence_back_need_a_queue() {
    // Without state there is no queue for the fence to go back to.
    let mut ctx = new_context(None);
    ctx.futexes.insert(
        1,
        rutabaga_gfx::cross_domain::context::CrossDomainFutex {
            handle: 20,
            evt: 21,
            shutdown: true,
        },
    );
    for connection_id in [2u64, 0x4000_0001, 0x4000_0009] {
        let event = WaitEvent { connection_id, hung_up: false, readable: true };
        assert_eq!(
            ctx.handle_fence(fence(3), Some(event)),
            Err(RutabagaError::InvalidCrossDomainState)
        );
    }
    assert!(ctx.futexes.contains_key(&1));
    assert!(ctx.state.is_none());
}

#[test]
fn event_of_a_futex_that_is_gone_puts_the_fence_back() {
    let mut ctx = channelled_context();
    let event = WaitEvent { connection_id: 0x4000_0009, hung_up: false, readable: true };
    let step = ctx.handle_fence(fence(3), Some(event)).unwrap();
    assert_eq!(
        step,
        FenceStep::Done(FenceOutcome {
            drain: None,
            deregister: None,
            ring_update: None,
            signal: None,
            requeued: true,
        })
    );
    assert_eq!(jobs(&ctx), vec![CrossDomainJob::HandleFence(fence(3))]);
}

#[test]
fn context_drop_during_active_channel() {
    let mut ctx = channelled_context();
    let id = 1;
    bind_futex(&mut ctx, id);
    let pipe = install_write_pipe(&mut ctx, 50);
    ctx.context_create_fence(fence(1)).unwrap();

    assert_eq!(ctx.shutdown(), (Some(KILL_EVT), true));
    assert_eq!(
        jobs(&ctx),
        vec![
            CrossDomainJob::AddFutex(id, 21),
            CrossDomainJob::HandleFence(fence(1)),
            CrossDomainJob::Finish,
        ]
    );
    assert_eq!(ctx.kill_evt, None);
    assert!(!ctx.worker_thread);
    assert_eq!(ctx.run(CrossDomainJob::Finish), Ok(WorkerAction::Stop));
    // The kill event wakes the worker, which signals the fence it was
    // waiting for.
    let event = WaitEvent { connection_id: 3, hung_up: false, readable: true };
    assert_eq!(
        ctx.handle_fence(fence(1), Some(event)),
        Ok(FenceStep::Done(FenceOutcome {
            drain: None,
            deregister: None,
            ring_update: None,
            signal: Some(fence(1)),
            requeued: false,
        }))
    );

    let teardown = ctx.release();
    assert_eq!(teardown.futexes.len(), 1);
    assert!(!teardown.futexes.get(&id).unwrap().shutdown);
    assert_eq!(teardown.items.len(), 1);
    assert_eq!(teardown.items.get(&pipe).copied(), Some(CrossDomainItem::WaylandWritePipe(50)));
}

#[test]
fn context_drop_without_a_channel_joins_nothing() {
    let mut ctx = local_context();
    assert_eq!(ctx.shutdown(), (None, false));
    assert_eq!(jobs(&ctx), vec![CrossDomainJob::Finish]);
    let mut ctx = new_context(None);
    assert_eq!(ctx.shutdown(), (None, false));
    assert!(ctx.state.is_none());
}

#[test]
fn fences_are_routed_by_ring() {
    let mut ctx = channelled_context();
    let mut query = fence(1);
    query.ring_idx = 0;
    assert_eq!(ctx.context_create_fence(query), Ok(FenceAction::Signal(query)));
    assert!(jobs(&ctx).is_empty());
    assert_eq!(ctx.context_create_fence(fence(2)), Ok(FenceAction::Deferred));
    assert_eq!(jobs(&ctx), vec![CrossDomainJob::HandleFence(fence(2))]);
    let mut other = fence(3);
    other.ring_idx = 2;
    assert_eq!(
        ctx.context_create_fence(other),
        Err(RutabagaError::MesaError(MesaError::WithContext("unexpected ring type")))
    );
    assert_eq!(ctx.run(CrossDomainJob::HandleFence(fence(2))), Ok(WorkerAction::Wait(fence(2))));
}

#[test]
fn fence_for_the_channel_ring_is_dropped_without_state() {
    let mut ctx = new_context(None);
    assert_eq!(ctx.context_create_fence(fence(2)), Ok(FenceAction::Deferred));
    assert!(ctx.state.is_none());
}

#[test]
fn jobs_are_taken_in_order() {
    let mut ctx = local_context();
    assert_eq!(ctx.wait_for_job(), None);
    ctx.add_job(CrossDomainJob::AddReadPipe(5));
    ctx.add_job(CrossDomainJob::Finish);
    assert_eq!(ctx.wait_for_job(), Some(CrossDomainJob::AddReadPipe(5)));
    assert_eq!(ctx.wait_for_job(), Some(CrossDomainJob::Finish));
    assert_eq!(ctx.wait_for_job(), None);
    let mut ctx = new_context(None);
    ctx.add_job(CrossDomainJob::Finish);
    assert_eq!(ctx.wait_for_job(), None);
}

#[test]
fn job_to_watch_a_pipe_needs_the_pipe() {
    let mut ctx = local_context();
    assert_eq!(
        ctx.run(CrossDomainJob::AddReadPipe(0x8000_0001)),
        Err(RutabagaError::InvalidCrossDomainItemId)
    );
    let id = install_write_pipe(&mut ctx, 50);
    assert_eq!(
        ctx.run(CrossDomainJob::AddReadPipe(id)),
        Err(RutabagaError::InvalidCrossDomainItemType)
    );
}

#[test]
fn no_event_leaves_everything_as_it_is() {
    let mut ctx = channelled_context();
    assert_eq!(
        ctx.handle_fence(fence(1), None),
        Ok(FenceStep::Done(FenceOutcome {
            drain: None,
            deregister: None,
            ring_update: None,
            signal: None,
            requeued: false,
        }))
    );
    assert!(jobs(&ctx).is_empty());
}

#[test]
fn resample_puts_the_fence_back() {
    let mut ctx = channelled_context();
    let event = WaitEvent { connection_id: 2, hung_up: false, readable: true };
    assert_eq!(
        ctx.handle_fence(fence(4), Some(event)),
        Ok(FenceStep::Done(FenceOutcome {
            drain: Some(RESAMPLE_EVT),
            deregister: None,
            ring_update: None,
            signal: None,
            requeued: true,
        }))
    );
    assert_eq!(jobs(&ctx), vec![CrossDomainJob::HandleFence(fence(4))]);
}

#[test]
fn channel_event_asks_for_a_message() {
    let mut ctx = channelled_context();
    let event = WaitEvent { connection_id: 1, hung_up: false, readable: true };
    assert_eq!(ctx.handle_fence(fence(4), Some(event)), Ok(FenceStep::Receive(CONNECTION)));
    let mut ctx = local_context();
    assert_eq!(
        ctx.handle_fence(fence(4), Some(event)),
        Err(RutabagaError::InvalidCrossDomainChannel)
    );
    let mut ctx = new_context(None);
    assert_eq!(
        ctx.handle_fence(fence(4), Some(event)),
        Err(RutabagaError::InvalidCrossDomainState)
    );
}

#[test]
fn event_with_a_name_beyond_identifiers_fails() {
    let mut ctx = channelled_context();
    let event = WaitEvent { connection_id: 0x1_0000_0001, hung_up: false, readable: true };
    assert_eq!(
        ctx.handle_fence(fence(4), Some(event)),
        Err(RutabagaError::MesaError(MesaError::TryFromIntError))
    );
}

#[test]
fn received_message_installs_items_and_writes_the_record() {
    let mut ctx = channelled_context();
    let files = vec![
        ReceivedDescriptor {
            descriptor: 60,
            descriptor_type: Ok(DescriptorType::Memory(8192, RUTABAGA_HANDLE_TYPE_MEM_SHM)),
        },
        ReceivedDescriptor { descriptor: 61, descriptor_type: Ok(DescriptorType::WritePipe) },
    ];
    let payload = [0xa1u8, 0xa2, 0xa3];
    let receipt = ctx.channel_received(fence(5), &payload, &files);
    assert_eq!(receipt.installed, 2);
    let outcome = receipt.result.unwrap();
    assert_eq!(outcome.signal, Some(fence(5)));
    assert_eq!(outcome.drain, None);
    assert_eq!(outcome.deregister, None);
    assert!(!outcome.requeued);
    let update = outcome.ring_update.unwrap();
    assert_eq!(update.resource_id, CHANNEL_RING);
    let mut expected = words(&[5, 0, 2, 3, 2, 3, 0, 0, 1, 4, 0, 0, 8192, 0, 0, 0]);
    expected.extend_from_slice(&payload);
    assert_eq!(update.data, expected);

    assert_eq!(
        ctx.item_state.get(2),
        Some(CrossDomainItem::Blob(MesaHandle {
            os_handle: 60,
            handle_type: RUTABAGA_HANDLE_TYPE_MEM_SHM,
        }))
    );
    assert_eq!(ctx.item_state.get(3), Some(CrossDomainItem::WaylandWritePipe(61)));
}

#[test]
fn received_message_without_descriptors_carries_the_payload() {
    let mut ctx = channelled_context();
    let receipt = ctx.channel_received(fence(5), &[1, 2], &Vec::new());
    assert_eq!(receipt.installed, 0);
    let update = receipt.result.unwrap().ring_update.unwrap();
    let mut expected = words(&[5, 0, 0, 2, 0, 0, 0, 0, 0, 0, 0, 0, 0, 0, 0, 0]);
    expected.extend_from_slice(&[1, 2]);
    assert_eq!(update.data, expected);
}

#[test]
fn received_message_looks_at_four_descriptors_only() {
    let mut ctx = channelled_context();
    let mut files = Vec::new();
    for i in 0..6 {
        files.push(ReceivedDescriptor {
            descriptor: 60 + i,
            descriptor_type: Ok(DescriptorType::WritePipe),
        });
    }
    let receipt = ctx.channel_received(fence(5), &[], &files);
    assert_eq!(receipt.installed, 4);
    let update = receipt.result.unwrap().ring_update.unwrap();
    assert_eq!(
        update.data,
        words(&[5, 0, 6, 0, 2, 3, 4, 5, 4, 4, 4, 4, 0, 0, 0, 0])
    );
    assert_eq!(ctx.item_state.len(), 4);
}

#[test]
fn received_memory_must_not_be_empty() {
    let mut ctx = channelled_context();
    let files = vec![ReceivedDescriptor {
        descriptor: 60,
        descriptor_type: Ok(DescriptorType::Memory(0, RUTABAGA_HANDLE_TYPE_MEM_SHM)),
    }];
    let receipt = ctx.channel_received(fence(5), &[], &files);
    assert_eq!(receipt.installed, 0);
    assert_eq!(receipt.result, Err(RutabagaError::InvalidCrossDomainItemType));
    assert_eq!(ctx.item_state.len(), 0);
}

#[test]
fn received_descriptor_of_unknown_kind_stops_the_worker() {
    let mut ctx = channelled_context();
    let files = vec![
        ReceivedDescriptor { descriptor: 60, descriptor_type: Ok(DescriptorType::WritePipe) },
        ReceivedDescriptor { descriptor: 61, descriptor_type: Ok(DescriptorType::Unknown) },
        ReceivedDescriptor { descriptor: 62, descriptor_type: Ok(DescriptorType::WritePipe) },
    ];
    let receipt = ctx.channel_received(fence(5), &[], &files);
    assert_eq!(receipt.installed, 1);
    assert_eq!(receipt.result, Err(RutabagaError::InvalidCrossDomainItemType));
    assert_eq!(ctx.item_state.len(), 1);

    let error = RutabagaError::MesaError(MesaError::IoError(9));
    let files = vec![ReceivedDescriptor { descriptor: 63, descriptor_type: Err(error) }];
    let receipt = ctx.channel_received(fence(5), &[], &files);
    assert_eq!(receipt.installed, 0);
    assert_eq!(receipt.result, Err(error));
}

#[test]
fn received_payload_larger_than_the_ring_writes_nothing() {
    let mut ctx = new_context(wayland_paths());
    let mut small = guest_blob(30, 70);
    ctx.attach(&mut small);
    let cmd = words(&[1, 20, QUERY_RING, 30, 1]);
    match ctx.submit_cmd(&cmd).unwrap() {
        CommandAction::Init(cmd_init, _) => {
            ctx.channel_connected(&cmd_init, CONNECTION, KILL_EVT, RESAMPLE_EVT)
        }
        other => panic!("unexpected action {:?}", other),
    }
    let receipt = ctx.channel_received(fence(5), &[0; 7], &Vec::new());
    assert_eq!(receipt.result, Err(RutabagaError::InvalidIovec));
    let receipt = ctx.channel_received(fence(5), &[0; 6], &Vec::new());
    assert_eq!(receipt.result.unwrap().ring_update.unwrap().data.len(), 70);
}

#[test]
fn read_pipe_event_reads_then_writes_a_read_record() {
    let mut ctx = channelled_context();
    let id = ctx.item_state.add_item(CrossDomainItem::WaylandReadPipe).unwrap();
    let event = WaitEvent { connection_id: id as u64, hung_up: false, readable: true };
    assert_eq!(
        ctx.handle_fence(fence(6), Some(event)),
        Ok(FenceStep::ReadPipe { pipe_id: id, capacity: 4076, readable: true, hung_up: false })
    );
    let outcome = ctx.pipe_read(fence(6), id, false, Some(&[5, 6, 7])).unwrap();
    assert_eq!(outcome.signal, Some(fence(6)));
    assert_eq!(outcome.deregister, None);
    assert!(!outcome.requeued);
    let update = outcome.ring_update.unwrap();
    assert_eq!(update.resource_id, CHANNEL_RING);
    let mut expected = words(&[6, 0, id, 0, 3]);
    expected.extend_from_slice(&[5, 6, 7]);
    assert_eq!(update.data, expected);
    assert!(ctx.item_state.get(id).is_some());
}

#[test]
fn read_with_hang_up_is_the_last_read() {
    let mut ctx = channelled_context();
    let id = ctx.item_state.add_item(CrossDomainItem::WaylandReadPipe).unwrap();
    let outcome = ctx.pipe_read(fence(6), id, true, None).unwrap();
    assert_eq!(outcome.deregister, Some(WaitSetEntry::ReadPipe(id)));
    assert_eq!(outcome.signal, Some(fence(6)));
    assert_eq!(outcome.ring_update.unwrap().data, words(&[6, 0, id, 1, 0]));
    assert!(ctx.item_state.get(id).is_none());

    let event = WaitEvent { connection_id: id as u64, hung_up: true, readable: false };
    assert_eq!(
        ctx.handle_fence(fence(7), Some(event)),
        Err(RutabagaError::InvalidCrossDomainItemId)
    );
    assert_eq!(
        ctx.pipe_read(fence(7), id, true, None),
        Err(RutabagaError::InvalidCrossDomainItemId)
    );
}

#[test]
fn hang_up_with_bytes_left_keeps_the_pipe() {
    let mut ctx = channelled_context();
    let id = ctx.item_state.add_item(CrossDomainItem::WaylandReadPipe).unwrap();
    let outcome = ctx.pipe_read(fence(6), id, true, Some(&[1])).unwrap();
    assert_eq!(outcome.deregister, None);
    let mut expected = words(&[6, 0, id, 0, 1]);
    expected.push(1);
    assert_eq!(outcome.ring_update.unwrap().data, expected);
    assert!(ctx.item_state.get(id).is_some());
}

#[test]
fn empty_read_without_hang_up_keeps_the_pipe() {
    let mut ctx = channelled_context();
    let id = ctx.item_state.add_item(CrossDomainItem::WaylandReadPipe).unwrap();
    let outcome = ctx.pipe_read(fence(6), id, false, Some(&[])).unwrap();
    assert_eq!(outcome.deregister, None);
    assert_eq!(outcome.ring_update.unwrap().data, words(&[6, 0, id, 0, 0]));
    let outcome = ctx.pipe_read(fence(6), id, false, None).unwrap();
    assert_eq!(outcome.deregister, None);
    assert_eq!(outcome.ring_update.unwrap().data, words(&[6, 0, id, 0, 0]));
    assert!(ctx.item_state.get(id).is_some());
}

#[test]
fn event_of_an_item_that_is_no_read_pipe_fails() {
    let mut ctx = channelled_context();
    install_write_pipe(&mut ctx, 48);
    install_write_pipe(&mut ctx, 49);
    let id = install_write_pipe(&mut ctx, 50);
    assert_eq!(id, 4);
    let event = WaitEvent { connection_id: id as u64, hung_up: false, readable: true };
    assert_eq!(
        ctx.handle_fence(fence(6), Some(event)),
        Err(RutabagaError::InvalidCrossDomainItemType)
    );
    assert_eq!(
        ctx.pipe_read(fence(6), id, false, None),
        Err(RutabagaError::InvalidCrossDomainItemType)
    );
}

#[test]
fn ring_write_checks_before_it_writes() {
    let mut ctx = new_context(None);
    let mut small = guest_blob(30, 16);
    ctx.attach(&mut small);
    let resources = &ctx.context_resources;
    let cmd = [1u8; 8];
    let (update, read) =
        write_to_ring(resources, RingWrite::Write(&cmd, Some(&[2u8; 8])), 30).unwrap();
    assert_eq!(read, 0);
    assert_eq!(update.data, vec![1, 1, 1, 1, 1, 1, 1, 1, 2, 2, 2, 2, 2, 2, 2, 2]);
    assert_eq!(
        write_to_ring(resources, RingWrite::Write(&cmd, Some(&[2u8; 9])), 30),
        Err(RutabagaError::InvalidIovec)
    );
    assert_eq!(
        write_to_ring(resources, RingWrite::Write(&[1u8; 17], None), 30),
        Err(RutabagaError::InvalidIovec)
    );
    assert_eq!(
        write_to_ring(resources, RingWrite::Write(&cmd, None), 31),
        Err(RutabagaError::InvalidResourceId)
    );
}

#[test]
fn ring_needs_guest_memory() {
    let mut ctx = new_context(None);
    let mut host = host_resource(40, 100);
    ctx.attach(&mut host);
    let mut empty = guest_blob(41, 16);
    empty.backing_iovecs = Some(Vec::new());
    ctx.attach(&mut empty);
    assert_eq!(ring_iovec(&ctx.context_resources, 40), Err(RutabagaError::InvalidIovec));
    assert_eq!(ring_iovec(&ctx.context_resources, 41), Err(RutabagaError::InvalidIovec));
    assert_eq!(ring_iovec(&ctx.context_resources, 42), Err(RutabagaError::InvalidResourceId));
    assert_eq!(
        ring_iovec(&ctx.context_resources, QUERY_RING),
        Ok(RutabagaIovec { base: 0x70_0000, len: 4096 })
    );
}

#[test]
fn pipe_read_capacity_is_the_ring_less_the_record() {
    let mut ctx = new_context(None);
    let mut exact = guest_blob(30, 20);
    ctx.attach(&mut exact);
    let mut short = guest_blob(31, 19);
    ctx.attach(&mut short);
    assert_eq!(pipe_read_capacity(&ctx.context_resources, QUERY_RING), Ok(4076));
    assert_eq!(pipe_read_capacity(&ctx.context_resources, 30), Ok(0));
    assert_eq!(
        pipe_read_capacity(&ctx.context_resources, 31),
        Err(RutabagaError::InvalidIovec)
    );
}

#[test]
fn pipe_record_carries_the_size_of_what_was_read() {
    let ctx = new_context(None);
    let cmd_read = CrossDomainReadWrite {
        hdr: CrossDomainHeader { cmd: 6, cmd_size: 0 },
        identifier: 0x8000_0001,
        hang_up: 0,
        opaque_data_size: 0,
    };
    let (update, read) = write_to_ring(
        &ctx.context_resources,
        RingWrite::WriteFromPipe(cmd_read, None),
        QUERY_RING,
    )
    .unwrap();
    assert_eq!(read, 0);
    assert_eq!(update.data, words(&[6, 0, 0x8000_0001, 0, 0]));
    let (update, read) = write_to_ring(
        &ctx.context_resources,
        RingWrite::WriteFromPipe(cmd_read, Some(&[4, 4])),
        QUERY_RING,
    )
    .unwrap();
    assert_eq!(read, 2);
    let mut expected = words(&[6, 0, 0x8000_0001, 0, 2]);
    expected.extend_from_slice(&[4, 4]);
    assert_eq!(update.data, expected);
    let too_much = vec![0u8; 4077];
    assert_eq!(
        write_to_ring(
            &ctx.context_resources,
            RingWrite::WriteFromPipe(cmd_read, Some(&too_much)),
            QUERY_RING
        ),
        Err(RutabagaError::InvalidIovec)
    );
}

#[test]
fn ring_update_replaces_the_start_of_the_region() {
    let mut ctx = local_context();
    let update = ctx.get_image_requirements(requirements(4096)).unwrap();
    let mut short = vec![7u8; 63];
    assert!(!update.apply(&mut short));
    assert_eq!(short, vec![7u8; 63]);
    let mut exact = vec![7u8; 66];
    assert!(update.apply(&mut exact));
    assert_eq!(&exact[0..64], &update.data[..]);
    assert_eq!(&exact[64..], &[7, 7]);
}

#[test]
fn blob_from_requirements_keeps_the_item() {
    let mut ctx = local_context();
    ctx.get_image_requirements(requirements(16384)).unwrap();
    let blob = ResourceCreateBlob { blob_mem: 2, blob_flags: 1, blob_id: 2, size: 16384 };
    assert_eq!(ctx.blob_allocation(&blob), Some(requirements(16384)));
    let handle = RutabagaHandle::MesaHandle(MesaHandle { os_handle: 70, handle_type: 2 });
    let resource = ctx.context_create_blob(33, blob, Some(handle)).unwrap();
    assert_eq!(
        resource,
        RutabagaResource {
            resource_id: 33,
            handle: Some(RutabagaHandle::MesaHandle(MesaHandle { os_handle: 70, handle_type: 2 })),
            blob: true,
            blob_mem: 2,
            blob_flags: 1,
            map_info: Some(0x31),
            info_2d: None,
            info_3d: Some(Resource3DInfo {
                width: 64,
                height: 64,
                drm_fourcc: DRM_FORMAT_ARGB8888,
                strides: [256, 0, 0, 0],
                offsets: [0, 0, 0, 0],
                modifier: 0x0100_0000_0000_0002,
            }),
            vulkan_info: None,
            backing_iovecs: None,
            component_mask: 8,
            size: 16384,
            guest_cpu_mappable: false,
        }
    );
    assert!(ctx.item_state.get(2).is_some());
    // A second blob from the same requirements.
    let handle = RutabagaHandle::MesaHandle(MesaHandle { os_handle: 71, handle_type: 2 });
    assert!(ctx.context_create_blob(34, blob, Some(handle)).is_ok());
}

#[test]
fn blob_from_requirements_checks_size_and_handle() {
    let mut ctx = local_context();
    ctx.get_image_requirements(requirements(16384)).unwrap();
    let blob = ResourceCreateBlob { blob_mem: 2, blob_flags: 1, blob_id: 2, size: 16385 };
    assert_eq!(ctx.blob_allocation(&blob), None);
    assert_eq!(
        ctx.context_create_blob(33, blob, None),
        Err(RutabagaError::MesaError(MesaError::WithContext("blob size mismatch")))
    );
    let blob = ResourceCreateBlob { blob_mem: 2, blob_flags: 1, blob_id: 2, size: 16384 };
    assert_eq!(
        ctx.context_create_blob(33, blob, None),
        Err(RutabagaError::MesaError(MesaError::InvalidMesaHandle))
    );
    assert!(ctx.item_state.get(2).is_some());
}

#[test]
fn blob_from_received_memory_consumes_the_item() {
    let mut ctx = channelled_context();
    let files = vec![
        ReceivedDescriptor {
            descriptor: 60,
            descriptor_type: Ok(DescriptorType::Memory(8192, RUTABAGA_HANDLE_TYPE_MEM_SHM)),
        },
        ReceivedDescriptor {
            descriptor: 61,
            descriptor_type: Ok(DescriptorType::Memory(4096, RUTABAGA_HANDLE_TYPE_MEM_DMABUF)),
        },
    ];
    ctx.channel_received(fence(5), &[], &files).result.unwrap();
    // The blob identifier is taken by its low 32 bits.
    let blob = ResourceCreateBlob {
        blob_mem: 2,
        blob_flags: 0,
        blob_id: 0x5_0000_0002,
        size: 8192,
    };
    assert_eq!(ctx.blob_allocation(&blob), None);
    let resource = ctx.context_create_blob(33, blob, None).unwrap();
    assert_eq!(
        resource.handle,
        Some(RutabagaHandle::MesaHandle(MesaHandle {
            os_handle: 60,
            handle_type: RUTABAGA_HANDLE_TYPE_MEM_SHM,
        }))
    );
    assert_eq!(resource.map_info, Some(0x11));
    assert_eq!(resource.info_3d, None);
    assert_eq!(resource.size, 8192);
    assert_eq!(resource.component_mask, RutabagaComponentType::CrossDomain.mask());
    assert!(ctx.item_state.get(2).is_none());
    assert_eq!(
        ctx.context_create_blob(33, blob, None),
        Err(RutabagaError::InvalidCrossDomainItemId)
    );

    let blob = ResourceCreateBlob { blob_mem: 2, blob_flags: 0, blob_id: 3, size: 4096 };
    let resource = ctx.context_create_blob(34, blob, None).unwrap();
    assert_eq!(resource.map_info, Some(0x31));
    assert!(ctx.release().items.is_empty());
}

#[test]
fn blob_from_a_pipe_fails_and_drops_the_pipe() {
    let mut ctx = local_context();
    let id = install_write_pipe(&mut ctx, 50);
    let blob = ResourceCreateBlob { blob_mem: 2, blob_flags: 0, blob_id: id as u64, size: 0 };
    assert_eq!(
        ctx.context_create_blob(33, blob, None),
        Err(RutabagaError::InvalidCrossDomainItemType)
    );
    assert!(ctx.item_state.get(id).is_none());
}

#[test]
fn attach_and_detach_change_the_resource_table() {
    let mut ctx = new_context(None);
    let mut blob = guest_blob(50, 128);
    ctx.attach(&mut blob);
    assert!(blob.backing_iovecs.is_none());
    let kept = ctx.context_resources.get(&50).unwrap();
    assert_eq!(kept.handle, None);
    assert_eq!(
        kept.backing_iovecs,
        Some(vec![RutabagaIovec { base: 0x10_0000 * 50, len: 128 }])
    );

    let mut host = host_resource(51, 100);
    ctx.attach(&mut host);
    assert_eq!(host, host_resource(51, 100));
    let kept = ctx.context_resources.get(&51).unwrap();
    assert_eq!(kept.handle, host.handle);
    assert_eq!(kept.backing_iovecs, None);

    let mut bare = host_resource(52, 100);
    bare.handle = None;
    ctx.attach(&mut bare);
    assert!(!ctx.context_resources.contains_key(&52));

    ctx.detach(&host);
    assert!(!ctx.context_resources.contains_key(&51));
    assert!(ctx.context_resources.contains_key(&50));
    assert_eq!(ctx.component_type(), RutabagaComponentType::CrossDomain);
}

#[test]
fn capset_is_stable_and_lists_the_channels() {
    let component = CrossDomain::init(wayland_paths(), capabilities(), false).unwrap();
    assert_eq!(component.get_capset_info(5), (0, 12));
    let first = component.get_capset(5, 0);
    assert_eq!(first, vec![1, 0, 0, 0, 0b110, 0, 0, 0, 1, 0, 0, 0]);
    assert_eq!(component.get_capset(9, 3), first);
    component.create_context(1, 0, None).unwrap();
    assert_eq!(component.get_capset(5, 0), first);

    let caps = GrallocCapabilities { supports_dmabuf: false, supports_external_gpu_memory: true };
    let paths = Some(vec![
        RutabagaPath { path: String::from("a"), path_type: 31 },
        RutabagaPath { path: String::from("b"), path_type: 32 },
        RutabagaPath { path: String::from("c"), path_type: 0 },
    ]);
    let component = CrossDomain::init(paths, caps, false).unwrap();
    assert_eq!(component.get_capset(5, 0), vec![1, 0, 0, 0, 1, 0, 0, 0x80, 0, 1, 0, 0]);
    let component = CrossDomain::init(None, caps, false).unwrap();
    assert_eq!(component.get_capset(5, 0), vec![1, 0, 0, 0, 0, 0, 0, 0, 0, 1, 0, 0]);
}

#[test]
fn component_blobs_are_guest_memory_only() {
    let component = CrossDomain::init(None, capabilities(), false).unwrap();
    let blob = ResourceCreateBlob { blob_mem: 2, blob_flags: 1, blob_id: 0, size: 64 };
    assert_eq!(
        component.create_blob(0, 5, blob, None),
        Err(RutabagaError::MesaError(MesaError::WithContext(
            "expected only guest memory blobs"
        )))
    );
    let resource = guest_blob(5, 64);
    assert_eq!(resource.resource_id, 5);
    assert_eq!(resource.handle, None);
    assert!(resource.blob);
    assert_eq!(resource.blob_mem, RUTABAGA_BLOB_MEM_GUEST);
    assert_eq!(resource.backing_iovecs, Some(vec![RutabagaIovec { base: 0x50_0000, len: 64 }]));
    assert_eq!(resource.component_mask, 8);
    assert_eq!(resource.size, 64);
    assert_eq!(resource.map_info, None);
}

#[test]
fn component_fences_are_signaled_at_once() {
    let component = CrossDomain::init(None, capabilities(), false).unwrap();
    assert_eq!(component.create_fence(fence(8)), Ok(FenceAction::Signal(fence(8))));
}

#[test]
fn new_contexts_copy_the_paths() {
    let component = CrossDomain::init(wayland_paths(), capabilities(), true).unwrap();
    let ctx = component.create_context(1, 0, None).unwrap();
    assert_eq!(ctx.paths, wayland_paths());
    assert!(ctx.virtiofs_table);
    assert!(ctx.state.is_none());
    assert!(ctx.context_resources.is_empty());
    assert!(ctx.futexes.is_empty());
    assert!((ctx.item_state.len() == 0));
    let other = component.create_context(2, 0, None).unwrap();
    assert_eq!(other.paths, wayland_paths());
}
