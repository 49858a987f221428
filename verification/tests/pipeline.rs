use grid_automata::cellular_automata::pipeline::{
    entry_point as ca_entry, shader_path as ca_path, CAPipeline,
};
use grid_automata::dispatch::Kernel;
use grid_automata::game_of_life::pipeline::{entry_point, shader_path, GLPipeline};
use grid_automata::registry::{KernelHandles, PipelineRequest};

fn names(requests: &[PipelineRequest]) -> Vec<(Kernel, &'static str, &'static str)> {
    requests.iter().map(|r| (r.kernel, r.shader_path, r.entry_point)).collect()
}

#[test]
fn packed_profile_names_its_kernels() {
    assert_eq!(shader_path(), "shaders/game_of_life.wgsl");
    assert_eq!(entry_point(Kernel::Randomize), "randomize");
    assert_eq!(entry_point(Kernel::Update), "update");
    assert_eq!(entry_point(Kernel::Display), "display");
}

#[test]
fn packed_profile_requests_update_randomize_display() {
    let pipeline = GLPipeline::new();
    assert_eq!(
        names(&pipeline.pending()),
        vec![
            (Kernel::Update, "shaders/game_of_life.wgsl", "update"),
            (Kernel::Randomize, "shaders/game_of_life.wgsl", "randomize"),
            (Kernel::Display, "shaders/game_of_life.wgsl", "display"),
        ]
    );
    assert_eq!(pipeline.update_pipeline(), None);
    assert_eq!(pipeline.randomize_pipeline(), None);
    assert_eq!(pipeline.display_pipeline(), None);
}

#[test]
fn a_registered_kernel_is_not_requested_again() {
    let mut pipeline = GLPipeline::new();
    assert_eq!(pipeline.register(Kernel::Randomize, 11), 11);
    assert_eq!(
        names(&pipeline.pending()),
        vec![
            (Kernel::Update, "shaders/game_of_life.wgsl", "update"),
            (Kernel::Display, "shaders/game_of_life.wgsl", "display"),
        ]
    );
    assert_eq!(pipeline.register(Kernel::Update, 12), 12);
    assert_eq!(pipeline.register(Kernel::Display, 13), 13);
    assert_eq!(names(&pipeline.pending()), vec![]);
    assert_eq!(pipeline.update_pipeline(), Some(12));
    assert_eq!(pipeline.randomize_pipeline(), Some(11));
    assert_eq!(pipeline.display_pipeline(), Some(13));
}

#[test]
fn registering_twice_keeps_the_first_handle() {
    let mut pipeline = GLPipeline::new();
    assert_eq!(pipeline.register(Kernel::Update, 5), 5);
    assert_eq!(pipeline.register(Kernel::Update, 6), 5);
    assert_eq!(pipeline.register(Kernel::Update, 5), 5);
    assert_eq!(pipeline.update_pipeline(), Some(5));
    assert_eq!(pipeline.randomize_pipeline(), None);
    assert_eq!(pipeline.display_pipeline(), None);
}

#[test]
fn kernel_handles_are_independent_per_kernel() {
    let mut handles = KernelHandles::new();
    for kernel in [Kernel::Randomize, Kernel::Update, Kernel::Display] {
        assert_eq!(handles.get(kernel), None);
    }
    assert_eq!(handles.register(Kernel::Display, 0), 0);
    assert_eq!(handles.get(Kernel::Display), Some(0));
    assert_eq!(handles.get(Kernel::Update), None);
    assert_eq!(handles.get(Kernel::Randomize), None);
    assert_eq!(handles.register(Kernel::Display, usize::MAX), 0);
    assert_eq!(handles.register(Kernel::Randomize, usize::MAX), usize::MAX);
    assert_eq!(handles.get(Kernel::Randomize), Some(usize::MAX));
    assert_eq!(handles.get(Kernel::Display), Some(0));
}

#[test]
fn per_cell_profile_requests_compute_and_display() {
    assert_eq!(ca_path(), "shaders/cellular_automata.wgsl");
    assert_eq!(ca_entry(Kernel::Update), Some("compute"));
    assert_eq!(ca_entry(Kernel::Display), Some("display"));
    assert_eq!(ca_entry(Kernel::Randomize), None);
    let pipeline = CAPipeline::new();
    assert_eq!(
        names(&pipeline.pending()),
        vec![
            (Kernel::Update, "shaders/cellular_automata.wgsl", "compute"),
            (Kernel::Display, "shaders/cellular_automata.wgsl", "display"),
        ]
    );
}

#[test]
fn per_cell_profile_registers_only_its_own_kernels() {
    let mut pipeline = CAPipeline::new();
    assert_eq!(pipeline.register(Kernel::Randomize, 1), None);
    assert_eq!(names(&pipeline.pending()).len(), 2);
    assert_eq!(pipeline.register(Kernel::Display, 2), Some(2));
    assert_eq!(pipeline.register(Kernel::Display, 3), Some(2));
    assert_eq!(
        names(&pipeline.pending()),
        vec![(Kernel::Update, "shaders/cellular_automata.wgsl", "compute")]
    );
    assert_eq!(pipeline.register(Kernel::Update, 4), Some(4));
    assert_eq!(names(&pipeline.pending()), vec![]);
    assert_eq!(pipeline.compute_pipeline(), Some(4));
    assert_eq!(pipeline.display_pipeline(), Some(2));
}
