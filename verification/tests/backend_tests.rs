use pilka::backend::{backend_from_lowercase, backend_from_setting, backend_label, switched, BackendKind};
use pilka::shaders::{reload_plan, reload_step, PipelineHandle, ReloadMappings, ReloadStep};
use pilka::ShaderKind;

#[test]
fn backend_defaults_to_wgpu() {
    assert_eq!(backend_from_setting(None), BackendKind::Wgpu);
    assert_eq!(backend_from_setting(Some("wgpu".to_string())), BackendKind::Wgpu);
    assert_eq!(backend_from_setting(Some("vulkan".to_string())), BackendKind::Wgpu);
    assert_eq!(backend_from_setting(Some(String::new())), BackendKind::Wgpu);
}

#[test]
fn backend_ash_in_any_case() {
    assert_eq!(backend_from_setting(Some("ash".to_string())), BackendKind::Ash);
    assert_eq!(backend_from_setting(Some("ASH".to_string())), BackendKind::Ash);
    assert_eq!(backend_from_setting(Some("aSh".to_string())), BackendKind::Ash);
    assert_eq!(backend_from_setting(Some(" ash".to_string())), BackendKind::Wgpu);
}

#[test]
fn switching_twice_returns() {
    assert_eq!(switched(BackendKind::Ash), BackendKind::Wgpu);
    assert_eq!(switched(BackendKind::Wgpu), BackendKind::Ash);
    assert_eq!(switched(switched(BackendKind::Ash)), BackendKind::Ash);
    assert_eq!(backend_label(switched(BackendKind::Wgpu)), "Ash");
    assert_eq!(backend_label(BackendKind::Wgpu), "Wgpu");
}

#[test]
fn reload_steps_by_pipeline_and_kind() {
    assert_eq!(reload_step(true, ShaderKind::Vertex), ReloadStep::VertexStage);
    assert_eq!(reload_step(true, ShaderKind::Fragment), ReloadStep::FragmentStage);
    assert_eq!(reload_step(true, ShaderKind::Compute), ReloadStep::Misplaced);
    assert_eq!(reload_step(false, ShaderKind::Compute), ReloadStep::ComputePipeline);
    assert_eq!(reload_step(false, ShaderKind::Vertex), ReloadStep::ComputePipeline);
}

#[test]
fn backend_from_lowercased_text() {
    assert_eq!(backend_from_lowercase("ash"), BackendKind::Ash);
    assert_eq!(backend_from_lowercase("ASH"), BackendKind::Wgpu);
    assert_eq!(backend_from_lowercase("wgpu"), BackendKind::Wgpu);
    assert_eq!(backend_from_lowercase("ashes"), BackendKind::Wgpu);
}

fn mappings() -> ReloadMappings {
    ReloadMappings {
        includes: vec![
            (
                "prelude.glsl".to_string(),
                vec![
                    ("shader.frag".to_string(), ShaderKind::Fragment),
                    ("shader.comp".to_string(), ShaderKind::Compute),
                ],
            ),
            ("shader.vert".to_string(), vec![("shader.vert".to_string(), ShaderKind::Vertex)]),
            ("broken.comp".to_string(), vec![("shared.glsl".to_string(), ShaderKind::Compute)]),
            ("lost.frag".to_string(), vec![("missing.frag".to_string(), ShaderKind::Fragment)]),
        ],
        pipelines: vec![
            ("shader.frag".to_string(), vec![PipelineHandle::Render(1)]),
            ("shader.vert".to_string(), vec![PipelineHandle::Render(1), PipelineHandle::Render(2)]),
            ("shader.comp".to_string(), vec![PipelineHandle::Compute(7)]),
            (
                "shared.glsl".to_string(),
                vec![PipelineHandle::Compute(3), PipelineHandle::Render(4), PipelineHandle::Compute(5)],
            ),
        ],
    }
}

#[test]
fn reload_plan_follows_includes() {
    let plan = reload_plan(&mappings(), "prelude.glsl").unwrap();
    assert_eq!(
        plan,
        vec![
            (PipelineHandle::Render(1), ReloadStep::FragmentStage),
            (PipelineHandle::Compute(7), ReloadStep::ComputePipeline),
        ]
    );
    let plan = reload_plan(&mappings(), "shader.vert").unwrap();
    assert_eq!(
        plan,
        vec![
            (PipelineHandle::Render(1), ReloadStep::VertexStage),
            (PipelineHandle::Render(2), ReloadStep::VertexStage),
        ]
    );
}

#[test]
fn reload_plan_stops_at_misplaced_compute_shader() {
    let plan = reload_plan(&mappings(), "broken.comp").unwrap();
    assert_eq!(
        plan,
        vec![
            (PipelineHandle::Compute(3), ReloadStep::ComputePipeline),
            (PipelineHandle::Render(4), ReloadStep::Misplaced),
        ]
    );
}

#[test]
fn reload_plan_unknown_paths() {
    assert!(reload_plan(&mappings(), "other.glsl").is_none());
    assert!(reload_plan(&mappings(), "lost.frag").is_none());
}

#[test]
fn registered_pipelines_reload() {
    let mut m = ReloadMappings::new();
    m.register_render_pipeline("shader.vert".to_string(), "shader.frag".to_string(), 1);
    m.register_compute_pipeline("shader.comp".to_string(), 2);
    m.register_render_pipeline("shader.vert".to_string(), "other.frag".to_string(), 3);
    m.register_render_pipeline("shader.vert".to_string(), "shader.frag".to_string(), 1);
    assert_eq!(m.includes.len(), 4);
    assert_eq!(m.pipelines.len(), 4);
    assert_eq!(
        reload_plan(&m, "shader.vert").unwrap(),
        vec![
            (PipelineHandle::Render(1), ReloadStep::VertexStage),
            (PipelineHandle::Render(3), ReloadStep::VertexStage),
        ]
    );
    assert_eq!(
        reload_plan(&m, "shader.comp").unwrap(),
        vec![(PipelineHandle::Compute(2), ReloadStep::ComputePipeline)]
    );
    assert_eq!(m.includes[0].1, vec![("shader.vert".to_string(), ShaderKind::Vertex)]);
}
