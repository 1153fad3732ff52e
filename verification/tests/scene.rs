use lantir::config::{
    copy_extent, initial_window_extent, resize_extent, window_engine_config, world_renderer_config_for_window,
    swapchain_fallback_extent, DefaultPlugin, Extent2D, LantirDefaultPlugins, Material, Mesh, RenderPlugin, RenderSchedule, RenderSystem,
};
use lantir::gltf_scene::{
    albedo_texture_binding, find_external_buffer, forward_primitive_drawn, gltf_image_byte_range,
    layout_gltf_scenes, load_gltf_primitives, scene_primitives, GltfImageError, GltfImageSource,
    PrimitiveDataError, glb_header_readable, gltf_readable, try_load_gltf, try_load_gltf_primitives, load_gltf, plan_gltf_scene, scene_root_nodes, GltfDocument, GltfError, GltfNodeDesc, GltfNodeSource, GltfPlanNode,
};

fn node(name: Option<&str>, prims: Option<usize>, children: Vec<usize>) -> GltfNodeDesc {
    GltfNodeDesc { name: name.map(String::from), mesh_primitives: prims, children }
}

fn names(plan: &[GltfPlanNode]) -> Vec<&str> {
    plan.iter().map(|n| n.name.as_str()).collect()
}

#[test]
fn gltf_nodes_are_followed_by_their_primitives_then_children() {
    let doc = GltfDocument {
        nodes: vec![node(Some("root"), Some(2), vec![1]), node(None, Some(1), vec![]), node(Some("other"), None, vec![])],
        scenes: vec![vec![0], vec![2]],
        external_buffers: vec![false],
    };
    let plan = plan_gltf_scene(&doc).unwrap();
    assert_eq!(names(&plan), vec!["root", "root#prim0", "root#prim1", "", "primitive#0", "other"]);
    assert_eq!(plan[0].children, vec![1, 2, 3]);
    assert_eq!(plan[3].children, vec![4]);
    assert!(plan[5].children.is_empty());
    assert_eq!(plan[0].source, GltfNodeSource::Node { node: 0 });
    assert_eq!(plan[2].source, GltfNodeSource::Primitive { node: 0, primitive: 1 });
    assert_eq!(plan[4].source, GltfNodeSource::Primitive { node: 1, primitive: 0 });
    assert_eq!(plan[5].source, GltfNodeSource::Node { node: 2 });
    assert_eq!(scene_root_nodes(&plan), vec![0, 5]);
}

#[test]
fn gltf_with_external_buffer_is_refused() {
    let doc = GltfDocument { nodes: vec![], scenes: vec![], external_buffers: vec![false, true] };
    assert_eq!(plan_gltf_scene(&doc).err(), Some(GltfError::ExternalBuffer));
}

#[test]
fn gltf_with_cycle_or_missing_node_is_refused() {
    let cyclic = GltfDocument {
        nodes: vec![node(Some("a"), None, vec![1]), node(Some("b"), None, vec![0])],
        scenes: vec![vec![0]],
        external_buffers: vec![],
    };
    assert_eq!(plan_gltf_scene(&cyclic).err(), Some(GltfError::InvalidNodeHierarchy));
    let dangling = GltfDocument { nodes: vec![node(None, None, vec![3])], scenes: vec![vec![0]], external_buffers: vec![] };
    assert_eq!(plan_gltf_scene(&dangling).err(), Some(GltfError::InvalidNodeHierarchy));
}

#[test]
fn gltf_file_is_parsed_and_laid_out() {
    let json = br#"{"asset":{"version":"2.0"},"scene":0,"scenes":[{"nodes":[0]}],
        "nodes":[{"name":"root","children":[1]},{"name":"leaf"}]}"#;
    let loaded = load_gltf(json).unwrap();
    assert_eq!(loaded.document.nodes.len(), 2);
    assert_eq!(loaded.document.scenes, vec![vec![0]]);
    assert_eq!(names(&loaded.plan), vec!["root", "leaf"]);
    assert_eq!(loaded.plan[0].children, vec![1]);
}

#[test]
fn gltf_parse_errors_are_reported() {
    assert_eq!(load_gltf(b"not a gltf file").err(), Some(GltfError::Parse));
    let external = br#"{"asset":{"version":"2.0"},"buffers":[{"byteLength":4,"uri":"data.bin"}]}"#;
    assert_eq!(load_gltf(external).err(), Some(GltfError::ExternalBuffer));
}

#[test]
fn roots_ignore_out_of_range_children() {
    let plan = vec![
        GltfPlanNode { name: "a".into(), children: vec![2, 7], source: GltfNodeSource::Node { node: 0 } },
        GltfPlanNode { name: "b".into(), children: vec![], source: GltfNodeSource::Node { node: 1 } },
        GltfPlanNode { name: "c".into(), children: vec![], source: GltfNodeSource::Node { node: 2 } },
    ];
    assert_eq!(scene_root_nodes(&plan), vec![0, 1]);
}

#[test]
fn window_sizes_decide_when_to_render() {
    assert_eq!(initial_window_extent(0, 600), None);
    assert_eq!(initial_window_extent(800, u32::MAX), None);
    assert_eq!(initial_window_extent(800, 600), Some(Extent2D { width: 800, height: 600 }));
    assert_eq!(resize_extent(0, 10), None);
    assert_eq!(resize_extent(1024, 768), Some(Extent2D { width: 1024, height: 768 }));
    let c = world_renderer_config_for_window(Extent2D { width: 5, height: 6 });
    assert_eq!(c.draw_extent, c.window_extent);
    let e = window_engine_config();
    assert!(e.debug);
    assert_eq!(e.frames_in_flight, 2);
    assert_eq!(
        copy_extent(Extent2D { width: 1920, height: 1000 }, Extent2D { width: 1280, height: 1080 }),
        Extent2D { width: 1280, height: 1000 }
    );
}

#[test]
fn default_plugins_in_order() {
    let plugins = LantirDefaultPlugins { title: "demo".to_string() }.build();
    assert_eq!(
        plugins,
        vec![
            DefaultPlugin::Window { title: "demo".to_string() },
            DefaultPlugin::Accessibility,
            DefaultPlugin::Winit,
            DefaultPlugin::Input,
            DefaultPlugin::Render,
            DefaultPlugin::TaskPool,
            DefaultPlugin::FrameCount,
            DefaultPlugin::Time,
            DefaultPlugin::Log,
        ]
    );
}

#[test]
fn render_plugin_schedules() {
    let r = RenderPlugin.build();
    assert_eq!(r.len(), 3);
    assert_eq!(r[0].schedule, RenderSchedule::PostStartup);
    assert_eq!(r[1].schedule, RenderSchedule::Update);
    assert!(r[1].until_renderer_exists);
    assert_eq!(r[2].systems, vec![RenderSystem::Render, RenderSystem::Resize]);
    assert_eq!(Mesh(3).0, 3);
    assert_eq!(Material(4).0, 4);
}

#[test]
fn swapchain_fallback_extent_is_clamped() {
    assert_eq!(swapchain_fallback_extent(0, 0), Extent2D { width: 1, height: 1 });
    assert_eq!(swapchain_fallback_extent(1280, 720), Extent2D { width: 1280, height: 720 });
    assert_eq!(swapchain_fallback_extent(16384, 20000), Extent2D { width: 16384, height: 16384 });
    assert_eq!(swapchain_fallback_extent(u32::MAX, 1), Extent2D { width: 16384, height: 1 });
}

#[test]
fn glb_header_with_short_length_is_unreadable() {
    assert!(!glb_header_readable(b"glTF\x02\0\0\0\x0b\0\0\0"));
    assert!(!glb_header_readable(b"glTF\x02\0\0\0\0\0\0\0rest"));
    assert!(glb_header_readable(b"glTF\x02\0\0\0\x0c\0\0\0"));
    assert!(glb_header_readable(b"glTF\x02\0\0\0"));
    assert!(glb_header_readable(b"{\"asset\":{\"version\":\"2.0\"}}"));
    assert!(glb_header_readable(b""));
}

#[test]
fn forward_viewer_draws_primitives_depth_first() {
    let doc = GltfDocument {
        nodes: vec![node(Some("root"), Some(2), vec![1]), node(None, Some(1), vec![]), node(Some("other"), None, vec![])],
        scenes: vec![vec![0], vec![2, 1]],
        external_buffers: vec![true],
    };
    assert_eq!(plan_gltf_scene(&doc).err(), Some(GltfError::ExternalBuffer));
    let plan = layout_gltf_scenes(&doc).unwrap();
    assert_eq!(plan.len(), 8);
    assert_eq!(scene_primitives(&plan), vec![(0, 0), (0, 1), (1, 0), (1, 0)]);
    let cyclic = GltfDocument {
        nodes: vec![node(None, Some(1), vec![0])],
        scenes: vec![vec![0]],
        external_buffers: vec![],
    };
    assert_eq!(layout_gltf_scenes(&cyclic).err(), Some(GltfError::InvalidNodeHierarchy));
}

#[test]
fn forward_viewer_reads_a_gltf_file() {
    let json = br#"{"asset":{"version":"2.0"},"scenes":[{"nodes":[0]}],
        "buffers":[{"byteLength":4,"uri":"data.bin"}],
        "nodes":[{"name":"root","children":[1]},{"name":"leaf"}]}"#;
    let loaded = load_gltf_primitives(json).unwrap();
    assert_eq!(loaded.document.external_buffers, vec![true]);
    assert!(loaded.primitives.is_empty());
    assert_eq!(loaded.plan.len(), 2);
    assert_eq!(loaded.plan[0].children, vec![1]);
    assert_eq!(load_gltf_primitives(b"not a gltf").err(), Some(GltfError::Parse));
    assert_eq!(load_gltf(json).err(), Some(GltfError::ExternalBuffer));
}

#[test]
fn external_buffers_are_found_by_name() {
    let names = ["a.bin", "b.bin", "b.bin"];
    assert_eq!(find_external_buffer(&names, "b.bin"), Some(1));
    assert_eq!(find_external_buffer(&names, "a.bin"), Some(0));
    assert_eq!(find_external_buffer(&names, "c.bin"), None);
    assert_eq!(find_external_buffer(&names, "b.bi"), None);
    assert_eq!(find_external_buffer(&[], "a.bin"), None);
}

#[test]
fn primitives_without_positions_are_skipped() {
    assert_eq!(forward_primitive_drawn(false, false, false), Ok(false));
    assert_eq!(forward_primitive_drawn(true, false, false), Err(PrimitiveDataError::NoNormals));
    assert_eq!(forward_primitive_drawn(true, true, false), Err(PrimitiveDataError::NoIndices));
    assert_eq!(forward_primitive_drawn(true, true, true), Ok(true));
}

#[test]
fn embedded_images_are_sliced_from_the_bin_chunk() {
    let view = |external_buffer, offset, length| GltfImageSource::View { external_buffer, offset, length };
    assert_eq!(gltf_image_byte_range(view(false, 4, 8), Some(12)), Ok((4, 12)));
    assert_eq!(gltf_image_byte_range(view(false, 4, 9), Some(12)), Err(GltfImageError::ViewOutOfBounds));
    assert_eq!(gltf_image_byte_range(view(false, 0, 0), None), Err(GltfImageError::MissingBlob));
    assert_eq!(gltf_image_byte_range(view(true, 0, 4), None), Err(GltfImageError::MissingBlob));
    assert_eq!(gltf_image_byte_range(view(true, 0, 4), Some(12)), Err(GltfImageError::ExternalBuffer));
    assert_eq!(gltf_image_byte_range(GltfImageSource::Uri, Some(12)), Err(GltfImageError::Uri));
}

#[test]
fn albedo_binds_the_uploaded_image() {
    let invalid = u64::MAX;
    assert_eq!(albedo_texture_binding(None, &[5, 6]), (invalid, invalid));
    assert_eq!(albedo_texture_binding(Some(1), &[5, 6]), (6, 0));
    assert_eq!(albedo_texture_binding(Some(2), &[5, 6]), (invalid, 0));
}

#[test]
fn gltf_with_missing_position_accessor_is_not_handed_to_the_reader() {
    let bad = br#"{"asset":{"version":"2.0"},"meshes":[{"primitives":[{"attributes":{"POSITION":3}}]}]}"#;
    assert!(!gltf_readable(bad));
    assert!(try_load_gltf(bad).is_none());
    assert!(try_load_gltf_primitives(bad).is_none());
    let checked = br#"{"asset":{"version":"2.0"},
        "accessors":[{"componentType":5126,"count":3,"type":"VEC3"}],
        "meshes":[{"primitives":[{"attributes":{"POSITION":0}},{"attributes":{}}]}]}"#;
    assert!(gltf_readable(checked));
    assert_eq!(try_load_gltf(checked).map(|r| r.err()), Some(Some(GltfError::Parse)));
    assert!(gltf_readable(b"not a gltf"));
    assert_eq!(try_load_gltf(b"not a gltf").map(|r| r.err()), Some(Some(GltfError::Parse)));
    assert!(!gltf_readable(b"glTF\x02\0\0\0\x0b\0\0\0"));
    let fine = br#"{"asset":{"version":"2.0"},"scenes":[{"nodes":[0]}],"nodes":[{"name":"n"}]}"#;
    let loaded = try_load_gltf(fine).unwrap().unwrap();
    assert_eq!(loaded.plan.len(), 1);
}
