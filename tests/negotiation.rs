use terrain_render::negotiator::{
    find_queue_family, meets_requirements, select_device, DeviceCandidate, DeviceClass, QueueFamily,
    RenderDevice, Requirements, Selection, API_VERSION_1_2, EXT_DYNAMIC_RENDERING, EXT_SWAPCHAIN,
};

fn requirements() -> Requirements {
    Requirements { min_api_version: API_VERSION_1_2, extensions: EXT_SWAPCHAIN | EXT_DYNAMIC_RENDERING }
}

fn candidate(class: DeviceClass, present: bool) -> DeviceCandidate {
    DeviceCandidate {
        name: format!("{:?}", class),
        api_version: API_VERSION_1_2,
        extensions: EXT_SWAPCHAIN | EXT_DYNAMIC_RENDERING,
        class,
        queue_families: vec![QueueFamily { graphics: true, present }],
    }
}

#[test]
fn discrete_gpu_wins_over_cpu_and_unpresentable_integrated() {
    let cs = vec![
        candidate(DeviceClass::Cpu, true),
        candidate(DeviceClass::DiscreteGpu, true),
        candidate(DeviceClass::IntegratedGpu, false),
    ];
    assert_eq!(select_device(&cs, &requirements()), Some(Selection { device: 1, queue_family: 0 }));
}

#[test]
fn no_eligible_candidate_gives_none() {
    let cs = vec![candidate(DeviceClass::IntegratedGpu, false), candidate(DeviceClass::Cpu, false)];
    assert_eq!(select_device(&cs, &requirements()), None);
    assert_eq!(select_device(&vec![], &requirements()), None);
}

#[test]
fn equal_class_ties_go_to_first_enumerated() {
    let cs = vec![
        candidate(DeviceClass::VirtualGpu, true),
        candidate(DeviceClass::IntegratedGpu, true),
        candidate(DeviceClass::IntegratedGpu, true),
    ];
    assert_eq!(select_device(&cs, &requirements()), Some(Selection { device: 1, queue_family: 0 }));
}

#[test]
fn old_api_version_is_filtered_out() {
    let mut old = candidate(DeviceClass::DiscreteGpu, true);
    old.api_version = API_VERSION_1_2 - 1;
    assert!(!meets_requirements(&old, &requirements()));
    let cs = vec![old, candidate(DeviceClass::Other, true)];
    assert_eq!(select_device(&cs, &requirements()), Some(Selection { device: 1, queue_family: 0 }));
}

#[test]
fn missing_extension_is_filtered_out() {
    let mut partial = candidate(DeviceClass::DiscreteGpu, true);
    partial.extensions = EXT_SWAPCHAIN;
    assert!(!meets_requirements(&partial, &requirements()));
    let cs = vec![partial, candidate(DeviceClass::Unknown, true)];
    assert_eq!(select_device(&cs, &requirements()), Some(Selection { device: 1, queue_family: 0 }));
}

#[test]
fn first_family_that_draws_and_presents_is_chosen() {
    let fams = vec![
        QueueFamily { graphics: false, present: true },
        QueueFamily { graphics: true, present: false },
        QueueFamily { graphics: true, present: true },
        QueueFamily { graphics: true, present: true },
    ];
    assert_eq!(find_queue_family(&fams), Some(2));
    let mut c = candidate(DeviceClass::DiscreteGpu, true);
    c.queue_families = fams;
    assert_eq!(select_device(&vec![c], &requirements()), Some(Selection { device: 0, queue_family: 2 }));
}

#[test]
fn class_ranks_follow_preference_order() {
    let ranks: Vec<u8> = [
        DeviceClass::DiscreteGpu,
        DeviceClass::IntegratedGpu,
        DeviceClass::VirtualGpu,
        DeviceClass::Cpu,
        DeviceClass::Other,
        DeviceClass::Unknown,
    ]
    .iter()
    .map(|c| c.rank())
    .collect();
    assert_eq!(ranks, vec![0, 1, 2, 3, 4, 5]);
}

#[test]
fn render_device_records_the_best_candidate() {
    let cs = vec![
        candidate(DeviceClass::Cpu, true),
        candidate(DeviceClass::DiscreteGpu, true),
        candidate(DeviceClass::IntegratedGpu, false),
    ];
    let d = RenderDevice::new(&cs, &requirements());
    assert_eq!(d.selection, Selection { device: 1, queue_family: 0 });
    assert_eq!(d.class, DeviceClass::DiscreteGpu);
}
