use ash::vk;
use vulkan_core::context::{
    debug_messenger_config, find_queue_families, instance_config, select_adapter, Adapter,
    DebugMessengerConfig, DeviceChoice, DeviceSelectionError, GraphicsContext, HandleKind,
    OwnedHandle, QueueFamily, QueueFamilyIndices, Severity, TeardownStep,
};
use vulkan_core::types::SharingMode;

fn family(graphics: bool, present: bool) -> QueueFamily {
    QueueFamily { graphics, present }
}

fn adapter(families: Vec<QueueFamily>, supports_presentation: bool) -> Adapter {
    Adapter { families, supports_presentation }
}

fn handle(kind: HandleKind, raw: u64) -> OwnedHandle {
    OwnedHandle { kind, raw }
}

#[test]
fn instance_names_and_versions() {
    let config = instance_config(Vec::new());
    assert_eq!(config.application_name, "Vulkan Triangle");
    assert_eq!(config.engine_name, "No Engine");
    assert_eq!(config.application_version, vk::make_api_version(0, 1, 0, 0));
    assert_eq!(config.engine_version, vk::make_api_version(0, 1, 0, 0));
    assert_eq!(config.api_version, vk::API_VERSION_1_0);
    assert_eq!(config.api_version, 1 << 22);
    assert_eq!(config.api_version, 4194304);
}

#[test]
fn debug_utilities_follow_the_extensions_of_the_window() {
    let required = vec!["VK_KHR_surface".to_string(), "VK_KHR_xcb_surface".to_string()];
    let config = instance_config(required);
    assert_eq!(
        config.extensions,
        vec![
            "VK_KHR_surface".to_string(),
            "VK_KHR_xcb_surface".to_string(),
            "VK_EXT_debug_utils".to_string(),
        ]
    );
    assert_eq!(instance_config(Vec::new()).extensions, vec!["VK_EXT_debug_utils".to_string()]);
    assert_eq!(
        config.extensions[2].as_bytes(),
        ash::extensions::ext::DebugUtils::name().to_bytes()
    );
}

#[test]
fn diagnostics_report_errors_and_warnings_of_every_kind() {
    let config = debug_messenger_config();
    assert_eq!(
        config,
        DebugMessengerConfig {
            message_severity: (vk::DebugUtilsMessageSeverityFlagsEXT::ERROR
                | vk::DebugUtilsMessageSeverityFlagsEXT::WARNING)
                .as_raw(),
            message_type: (vk::DebugUtilsMessageTypeFlagsEXT::GENERAL
                | vk::DebugUtilsMessageTypeFlagsEXT::VALIDATION
                | vk::DebugUtilsMessageTypeFlagsEXT::PERFORMANCE)
                .as_raw(),
        }
    );
    assert_eq!(config.message_severity, 0x1100);
    assert_eq!(config.message_type, 0x7);
}

#[test]
fn only_errors_and_warnings_reach_the_host() {
    assert!(Severity::Error.is_forwarded());
    assert!(Severity::Warning.is_forwarded());
    assert!(!Severity::Info.is_forwarded());
    assert!(!Severity::Verbose.is_forwarded());
    let mask = debug_messenger_config().message_severity;
    assert_eq!(mask & 0x1000, 0x1000);
    assert_eq!(mask & 0x100, 0x100);
    assert_eq!(mask & 0x10, 0);
    assert_eq!(mask & 0x1, 0);
}

#[test]
fn a_family_that_does_both_is_preferred() {
    let families = vec![family(true, false), family(false, true), family(true, true)];
    assert_eq!(
        find_queue_families(&families),
        Some(QueueFamilyIndices { graphics_family: 2, present_family: 2 })
    );
    let families = vec![family(true, true), family(true, true)];
    assert_eq!(
        find_queue_families(&families),
        Some(QueueFamilyIndices { graphics_family: 0, present_family: 0 })
    );
}

#[test]
fn two_families_are_used_where_none_does_both() {
    let families =
        vec![family(false, false), family(false, true), family(true, false), family(true, false)];
    assert_eq!(
        find_queue_families(&families),
        Some(QueueFamilyIndices { graphics_family: 2, present_family: 1 })
    );
}

#[test]
fn a_missing_capability_leaves_no_choice() {
    assert_eq!(find_queue_families(&Vec::new()), None);
    assert_eq!(find_queue_families(&vec![family(true, false), family(true, false)]), None);
    assert_eq!(find_queue_families(&vec![family(false, true)]), None);
    assert_eq!(find_queue_families(&vec![family(false, false)]), None);
}

#[test]
fn queues_are_opened_once_per_family() {
    let unified = QueueFamilyIndices { graphics_family: 3, present_family: 3 };
    assert_eq!(unified.unique_families(), vec![3]);
    assert_eq!(unified.sharing_mode(), SharingMode::Exclusive);
    let split = QueueFamilyIndices { graphics_family: 0, present_family: 2 };
    assert_eq!(split.unique_families(), vec![0, 2]);
    assert_eq!(split.sharing_mode(), SharingMode::Concurrent);
}

#[test]
fn first_suitable_adapter_is_selected() {
    let adapters = vec![
        adapter(vec![family(true, true)], false),
        adapter(vec![family(true, false)], true),
        adapter(vec![family(true, false), family(false, true)], true),
        adapter(vec![family(true, true)], true),
    ];
    assert_eq!(
        select_adapter(&adapters),
        Ok(DeviceChoice {
            adapter: 2,
            queues: QueueFamilyIndices { graphics_family: 0, present_family: 1 },
        })
    );
}

#[test]
fn no_suitable_adapter_is_a_device_selection_error() {
    assert_eq!(select_adapter(&Vec::new()), Err(DeviceSelectionError { adapters: 0 }));
    let adapters =
        vec![adapter(vec![family(true, true)], false), adapter(vec![family(true, false)], true)];
    assert_eq!(select_adapter(&adapters), Err(DeviceSelectionError { adapters: 2 }));
    match GraphicsContext::initialize(&adapters) {
        Ok(_) => panic!("a context on no adapter"),
        Err(e) => assert_eq!(e, DeviceSelectionError { adapters: 2 }),
    }
}

#[test]
fn teardown_waits_then_releases_in_reverse() {
    let adapters = vec![adapter(vec![family(true, true)], true)];
    let mut context = match GraphicsContext::initialize(&adapters) {
        Ok(context) => context,
        Err(_) => panic!("the adapter is suitable"),
    };
    assert_eq!(
        context.choice(),
        DeviceChoice {
            adapter: 0,
            queues: QueueFamilyIndices { graphics_family: 0, present_family: 0 },
        }
    );
    context.register(handle(HandleKind::Instance, 1));
    context.register(handle(HandleKind::DebugMessenger, 2));
    context.register(handle(HandleKind::Surface, 3));
    context.register(handle(HandleKind::Device, 4));
    assert_eq!(
        context.teardown(),
        vec![
            TeardownStep::WaitDeviceIdle,
            TeardownStep::Release(handle(HandleKind::Device, 4)),
            TeardownStep::Release(handle(HandleKind::Surface, 3)),
            TeardownStep::Release(handle(HandleKind::DebugMessenger, 2)),
            TeardownStep::Release(handle(HandleKind::Instance, 1)),
        ]
    );
}

#[test]
fn teardown_of_an_empty_context_still_waits() {
    let adapters = vec![adapter(vec![family(true, true)], true)];
    match GraphicsContext::initialize(&adapters) {
        Ok(context) => assert_eq!(context.teardown(), vec![TeardownStep::WaitDeviceIdle]),
        Err(_) => panic!("the adapter is suitable"),
    }
}
