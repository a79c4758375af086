use renderupt::buffer::{
    AllocatedBuffer, AllocationRequest, Backing, BufferInfo, BufferPlan, BufferUsage, MemoryUsage,
};
use renderupt::device::FORMAT_R32G32B32_SFLOAT;
use renderupt::mesh::{
    flatten, load, vertex_data, InputRate, Mesh, Transform, Vertex, VertexAttribute,
    VertexBinding, VertexDesc, PUSH_CONSTANT_BYTES, VERTEX_STRIDE,
};
use renderupt::pipeline::PipelineStruct;
use renderupt::scene::{Material, Scene};
use renderupt::table::Table;
use renderupt::teardown::{ObjectKind, Release};

fn bits(values: &[f32]) -> Vec<u32> {
    values.iter().map(|value| value.to_bits()).collect()
}

fn triple(x: f32, y: f32, z: f32) -> [u32; 3] {
    [x.to_bits(), y.to_bits(), z.to_bits()]
}

fn transform(seed: f32) -> Transform {
    let mut columns = [0u32; 16];
    for (i, column) in columns.iter_mut().enumerate() {
        *column = (seed + i as f32).to_bits();
    }
    Transform { columns }
}

fn mesh(vertices: usize, buffer: u64, block: u32) -> Mesh<u32> {
    let vertex = Vertex {
        pos: triple(0.5, -0.5, 0.5),
        normal: triple(0.0, 1.0, 0.0),
        color: triple(0.0, 1.0, 0.0),
    };
    Mesh::new(vec![vertex; vertices], AllocatedBuffer::new(buffer, block))
}

fn material(pipeline: u64, layout: u64) -> Material {
    Material { pipeline: PipelineStruct::new(vec![pipeline], layout) }
}

#[test]
fn vertex_layout_is_position_normal_colour() {
    let desc = VertexDesc::new();
    assert_eq!(
        desc.bindings,
        vec![VertexBinding { binding: 0, stride: 36, input_rate: InputRate::Vertex }]
    );
    assert_eq!(
        desc.attributes,
        vec![
            VertexAttribute { binding: 0, location: 0, format: FORMAT_R32G32B32_SFLOAT, offset: 0 },
            VertexAttribute { binding: 0, location: 1, format: FORMAT_R32G32B32_SFLOAT, offset: 12 },
            VertexAttribute { binding: 0, location: 2, format: FORMAT_R32G32B32_SFLOAT, offset: 24 },
        ]
    );
    assert_eq!(VERTEX_STRIDE as usize, 9 * std::mem::size_of::<f32>());
    assert_eq!(PUSH_CONSTANT_BYTES as usize, std::mem::size_of::<[f32; 16]>());
}

#[test]
fn model_gives_one_vertex_per_index() {
    let positions = bits(&[0.0, 0.1, 0.2, 1.0, 1.1, 1.2, 2.0, 2.1, 2.2]);
    let normals = bits(&[0.0, 0.0, 1.0, 0.0, 1.0, 0.0, 1.0, 0.0, 0.0]);
    let vertices = load(&vec![2, 0, 1, 2], &positions, &normals).unwrap();
    assert_eq!(
        vertices,
        vec![
            Vertex {
                pos: triple(2.0, 2.1, 2.2),
                normal: triple(1.0, 0.0, 0.0),
                color: triple(1.0, 0.0, 0.0),
            },
            Vertex {
                pos: triple(0.0, 0.1, 0.2),
                normal: triple(0.0, 0.0, 1.0),
                color: triple(0.0, 0.0, 1.0),
            },
            Vertex {
                pos: triple(1.0, 1.1, 1.2),
                normal: triple(0.0, 1.0, 0.0),
                color: triple(0.0, 1.0, 0.0),
            },
            Vertex {
                pos: triple(2.0, 2.1, 2.2),
                normal: triple(1.0, 0.0, 0.0),
                color: triple(1.0, 0.0, 0.0),
            },
        ]
    );
}

#[test]
fn model_without_normals_gives_zero_normals() {
    let positions = bits(&[0.0, 0.1, 0.2, 1.0, 1.1, 1.2]);
    let vertices = load(&vec![1], &positions, &Vec::new()).unwrap();
    assert_eq!(
        vertices,
        vec![Vertex { pos: triple(1.0, 1.1, 1.2), normal: triple(0.0, 0.0, 0.0), color: [0, 0, 0] }]
    );
}

#[test]
fn model_without_indices_gives_no_vertices() {
    assert_eq!(load(&Vec::new(), &Vec::new(), &Vec::new()), Some(Vec::new()));
}

#[test]
fn index_outside_the_model_gives_nothing() {
    let positions = bits(&[0.0, 0.1, 0.2, 1.0, 1.1, 1.2]);
    assert_eq!(load(&vec![0, 2], &positions, &Vec::new()), None);
    // The last coordinate of the position is missing.
    assert_eq!(load(&vec![1], &positions[..5].to_vec(), &Vec::new()), None);
    // There are normals, but not for this index.
    assert_eq!(load(&vec![1], &positions, &bits(&[0.0, 0.0, 1.0])), None);
    assert_eq!(load(&vec![u32::MAX], &positions, &Vec::new()), None);
}

#[test]
fn vertices_flatten_to_nine_words_each() {
    let vertices = vec![
        Vertex { pos: [1, 2, 3], normal: [4, 5, 6], color: [7, 8, 9] },
        Vertex { pos: [11, 12, 13], normal: [14, 15, 16], color: [17, 18, 19] },
    ];
    assert_eq!(
        flatten(&vertices),
        vec![1, 2, 3, 4, 5, 6, 7, 8, 9, 11, 12, 13, 14, 15, 16, 17, 18, 19]
    );
    assert_eq!(flatten(&Vec::new()), Vec::<u32>::new());
}

#[test]
fn vertex_data_is_the_floats_in_machine_order() {
    let vertices = vec![
        Vertex {
            pos: triple(0.5, -0.5, -0.5),
            normal: triple(0.0, 0.0, 0.0),
            color: triple(0.0, 1.0, 0.0),
        },
        Vertex {
            pos: triple(0.5, -0.5, 0.5),
            normal: triple(0.0, 0.0, 0.0),
            color: triple(0.0, 1.0, 0.0),
        },
    ];
    let bytes = vertex_data(&vertices);
    assert_eq!(bytes.len(), 72);
    let floats = [
        0.5f32, -0.5, -0.5, 0.0, 0.0, 0.0, 0.0, 1.0, 0.0, 0.5, -0.5, 0.5, 0.0, 0.0, 0.0, 0.0, 1.0,
        0.0,
    ];
    let mut expected = Vec::new();
    for value in floats.iter() {
        expected.extend_from_slice(&value.to_ne_bytes());
    }
    assert_eq!(bytes, expected);
    assert_eq!(&bytes[0..4], &0x3f00_0000u32.to_ne_bytes());
}

#[test]
fn vertex_data_of_no_vertices_is_empty() {
    assert_eq!(vertex_data(&Vec::new()), Vec::<u8>::new());
}

#[test]
fn vertex_buffer_is_host_visible_and_as_large_as_the_data() {
    let vertices = vec![Vertex { pos: [1, 2, 3], normal: [4, 5, 6], color: [7, 8, 9] }; 8];
    let data = vertex_data(&vertices);
    assert_eq!(
        Mesh::<u32>::upload_plan(&data),
        BufferPlan {
            request: AllocationRequest {
                size: 288,
                align_mask: 1,
                usage: MemoryUsage::HostAccess,
                memory_types: u32::MAX,
            },
            info: BufferInfo { size: 288, usage: BufferUsage::VertexBuffer },
            bind_offset: 0,
        }
    );
}

#[test]
fn table_keeps_the_order_of_first_arrival() {
    let mut table: Table<u32> = Table::new();
    assert_eq!(table.len(), 0);
    assert_eq!(table.insert("b".to_string(), 1), None);
    assert_eq!(table.insert("a".to_string(), 2), None);
    assert_eq!(table.insert("b".to_string(), 3), Some(1));
    assert_eq!(table.len(), 2);
    assert_eq!(table.names, vec!["b".to_string(), "a".to_string()]);
    assert_eq!(table.values, vec![3, 2]);
    assert_eq!(table.get(&"a".to_string()), Some(&2));
    assert_eq!(table.get(&"b".to_string()), Some(&3));
    assert_eq!(table.get(&"c".to_string()), None);
    assert_eq!(table.find(&"a".to_string()), Some(1));
    assert_eq!(table.find(&"".to_string()), None);
}

#[test]
fn new_scene_is_empty() {
    let scene: Scene<u32> = Scene::new();
    assert!(scene.iterate().is_empty());
    assert_eq!(scene.meshes.len(), 0);
    assert_eq!(scene.materials.len(), 0);
    assert!(scene.is_drawable());
    assert!(!scene.released);
}

#[test]
fn scene_yields_what_was_added() {
    let mut scene = Scene::new();
    scene.add_render_object_with_mesh_material(
        "tri",
        mesh(3, 500, 1),
        "default",
        material(600, 601),
        transform(1.0),
    );
    let objects = scene.iterate();
    assert_eq!(objects.len(), 1);
    assert_eq!(objects[0].mesh_name, "tri");
    assert_eq!(objects[0].material_name, "default");
    assert_eq!(objects[0].transform, transform(1.0));
    assert_eq!(scene.meshes.len(), 1);
    assert_eq!(scene.materials.len(), 1);
    assert!(scene.is_drawable());
}

#[test]
fn same_mesh_name_overwrites_the_mesh_and_appends_an_instance() {
    let mut scene = Scene::new();
    scene.add_render_object_with_mesh_material(
        "tri",
        mesh(3, 500, 1),
        "default",
        material(600, 601),
        transform(1.0),
    );
    scene.add_render_object_with_mesh("tri", mesh(6, 510, 2), "default", transform(2.0));
    let objects = scene.iterate();
    assert_eq!(objects.len(), 2);
    assert_eq!((objects[0].mesh_name.as_str(), objects[0].material_name.as_str()), ("tri", "default"));
    assert_eq!((objects[1].mesh_name.as_str(), objects[1].material_name.as_str()), ("tri", "default"));
    assert_eq!(objects[0].transform, transform(1.0));
    assert_eq!(objects[1].transform, transform(2.0));
    // Both instances now stand for the later mesh.
    assert_eq!(scene.meshes.len(), 1);
    let stored = scene.meshes.get(&"tri".to_string()).unwrap();
    assert_eq!(stored.vertices.len(), 6);
    assert_eq!(stored.vertex_buffer.buffer, 510);
    // The earlier mesh is kept for teardown.
    assert_eq!(scene.retired_meshes.len(), 1);
    assert_eq!(scene.retired_meshes[0].vertex_buffer.buffer, 500);
}

#[test]
fn same_material_name_overwrites_the_material() {
    let mut scene = Scene::new();
    scene.add_render_object_with_mesh_material(
        "a",
        mesh(3, 500, 1),
        "default",
        material(600, 601),
        transform(1.0),
    );
    scene.add_render_object_with_mesh_material(
        "b",
        mesh(3, 510, 2),
        "default",
        material(610, 611),
        transform(2.0),
    );
    assert_eq!(scene.materials.len(), 1);
    assert_eq!(scene.materials.get(&"default".to_string()).unwrap().pipeline.pipelines, vec![610]);
    assert_eq!(scene.retired_materials.len(), 1);
    assert_eq!(scene.retired_materials[0].pipeline.pipeline_layout, 601);
    assert_eq!(scene.meshes.len(), 2);
    assert_eq!(scene.iterate().len(), 2);
}

#[test]
fn instance_of_a_missing_mesh_cannot_be_drawn() {
    let mut scene: Scene<u32> = Scene::new();
    scene.add_render_object_with_mesh_material(
        "tri",
        mesh(3, 500, 1),
        "default",
        material(600, 601),
        transform(1.0),
    );
    assert!(scene.is_drawable());
    scene.add_render_object("cube", "default", transform(2.0));
    assert_eq!(scene.iterate().len(), 2);
    assert!(!scene.is_drawable());
    scene.add_render_object_with_mesh("cube", mesh(36, 510, 2), "default", transform(3.0));
    assert!(scene.is_drawable());
    scene.add_render_object("cube", "shiny", transform(4.0));
    assert!(!scene.is_drawable());
}

#[test]
fn material_without_a_pipeline_cannot_be_drawn() {
    let mut scene: Scene<u32> = Scene::new();
    scene.add_render_object_with_mesh_material(
        "tri",
        mesh(3, 500, 1),
        "default",
        Material { pipeline: PipelineStruct::new(Vec::new(), 601) },
        transform(1.0),
    );
    assert!(!scene.is_drawable());
}

#[test]
fn scene_frees_every_mesh_once_even_an_overwritten_one() {
    let mut scene = Scene::new();
    scene.add_render_object_with_mesh_material(
        "tri",
        mesh(3, 500, 1),
        "default",
        material(600, 601),
        transform(1.0),
    );
    scene.add_render_object_with_mesh_material(
        "cube",
        mesh(36, 510, 2),
        "shiny",
        material(610, 611),
        transform(2.0),
    );
    scene.add_render_object_with_mesh_material(
        "tri",
        mesh(6, 520, 3),
        "default",
        material(620, 621),
        transform(3.0),
    );
    let steps = scene.cleanup();
    assert_eq!(
        steps,
        vec![
            Release::Destroy(ObjectKind::Buffer, 520),
            Release::Free(3),
            Release::Destroy(ObjectKind::Buffer, 510),
            Release::Free(2),
            Release::Destroy(ObjectKind::Buffer, 500),
            Release::Free(1),
            Release::Destroy(ObjectKind::Pipeline, 620),
            Release::Destroy(ObjectKind::PipelineLayout, 621),
            Release::Destroy(ObjectKind::Pipeline, 610),
            Release::Destroy(ObjectKind::PipelineLayout, 611),
            Release::Destroy(ObjectKind::Pipeline, 600),
            Release::Destroy(ObjectKind::PipelineLayout, 601),
        ]
    );
    assert!(scene.released);
    assert_eq!(
        scene.meshes.get(&"tri".to_string()).unwrap().vertex_buffer.allocation,
        Backing::Released
    );
    assert_eq!(scene.retired_meshes[0].vertex_buffer.allocation, Backing::Released);
    assert_eq!(scene.cleanup(), Vec::new());
}

#[test]
fn table_with_a_name_twice_is_not_well_formed() {
    let mut table: Table<u32> = Table::new();
    assert!(table.is_well_formed());
    table.insert("a".to_string(), 1);
    table.insert("b".to_string(), 2);
    table.insert("a".to_string(), 3);
    assert!(table.is_well_formed());
    let twice = Table { names: vec!["a".to_string(), "b".to_string(), "a".to_string()], values: vec![1, 2, 3] };
    assert!(!twice.is_well_formed());
    let adjacent = Table { names: vec!["b".to_string(), "a".to_string(), "a".to_string()], values: vec![1, 2, 3] };
    assert!(!adjacent.is_well_formed());
    let short = Table { names: vec!["a".to_string(), "b".to_string()], values: vec![1] };
    assert!(!short.is_well_formed());
    let distinct = Table { names: vec!["a".to_string(), "b".to_string(), "c".to_string()], values: vec![1, 2, 3] };
    assert!(distinct.is_well_formed());
}

#[test]
fn scene_is_well_formed_as_long_as_its_tables_are() {
    let mut scene: Scene<u32> = Scene::new();
    assert!(scene.is_well_formed());
    scene.add_render_object_with_mesh_material(
        "tri",
        mesh(3, 500, 1),
        "default",
        material(600, 601),
        transform(1.0),
    );
    scene.add_render_object_with_mesh("tri", mesh(6, 510, 2), "default", transform(2.0));
    assert!(scene.is_well_formed());
    scene.materials.names.push("default".to_string());
    assert!(!scene.is_well_formed());
}
