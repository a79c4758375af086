//! The scene: meshes and materials by name, and the list of instances to
//! draw, each naming its mesh and its material.
//!
//! The scene owns its meshes and materials until it is torn down. A mesh
//! or material that another takes the name of is no longer drawn, but it
//! stays with the scene, so that its buffer and pipelines are destroyed
//! with all the others.

use vstd::prelude::*;
use crate::mesh::{Mesh, Transform};
use crate::pipeline::PipelineStruct;
use crate::table::Table;
use crate::teardown::{
    concat,
    concat_keeps_touching,
    concat_laws,
    concat_take_next,
    frees,
    frees_of_sum,
    nothing_freed_laws,
    only_touching,
    orderly,
    orderly_sum,
    total,
    total_of_zeros,
    Release,
};

verus! {

/// A material: the pipeline that draws with it.
#[derive(Debug)]
pub struct Material {
    pub pipeline: PipelineStruct,
}

/// One instance to draw: a mesh and a material by name, and where the
/// mesh stands in the world.
#[derive(Debug)]
pub struct RenderObject {
    pub mesh_name: String,
    pub material_name: String,
    pub transform: Transform,
}

/// The scene.
#[derive(Debug)]
pub struct Scene<A> {
    pub objects: Vec<RenderObject>,
    pub meshes: Table<Mesh<A>>,
    pub materials: Table<Material>,
    /// Meshes whose name went to a later mesh.
    pub retired_meshes: Vec<Mesh<A>>,
    /// Materials whose name went to a later material.
    pub retired_materials: Vec<Material>,
    /// Set once the scene has been torn down.
    pub released: bool,
}

/// What releasing each mesh consists of, in the order of the meshes.
pub open spec fn mesh_teardowns<A>(meshes: Seq<Mesh<A>>) -> Seq<Seq<Release<A>>> {
    meshes.map_values(|mesh: Mesh<A>| mesh.vertex_buffer.release_steps())
}

/// What destroying each material consists of, in the order of the
/// materials.
pub open spec fn material_teardowns<A>(materials: Seq<Material>) -> Seq<Seq<Release<A>>> {
    materials.map_values(|material: Material| material.pipeline.teardown_steps::<A>())
}

/// How many memory blocks the meshes of a list hold.
pub open spec fn mesh_blocks<A>(meshes: Seq<Mesh<A>>) -> nat {
    total(meshes.map_values(|mesh: Mesh<A>| mesh.vertex_buffer.blocks_held()))
}

/// Releasing the meshes of a list frees exactly the blocks they hold, each
/// only after its buffer is destroyed.
pub proof fn mesh_teardown_laws<A>(meshes: Seq<Mesh<A>>)
    ensures
        frees(concat(mesh_teardowns(meshes))) == mesh_blocks(meshes),
        orderly(concat(mesh_teardowns(meshes))),
{
    let parts = mesh_teardowns(meshes);
    concat_laws(parts);
    assert forall|i: int| 0 <= i < parts.len() implies orderly(#[trigger] parts[i]) by {
        meshes[i].vertex_buffer.release_laws();
    }
    let counts = parts.map_values(|part: Seq<Release<A>>| frees(part));
    let held = meshes.map_values(|mesh: Mesh<A>| mesh.vertex_buffer.blocks_held());
    assert forall|i: int| 0 <= i < counts.len() implies counts[i] == held[i] by {
        meshes[i].vertex_buffer.release_laws();
    }
    assert(counts =~= held);
}

/// Destroying the materials of a list frees nothing.
pub proof fn material_teardown_laws<A>(materials: Seq<Material>)
    ensures
        frees(concat(material_teardowns::<A>(materials))) == 0,
        orderly(concat(material_teardowns::<A>(materials))),
{
    let parts = material_teardowns::<A>(materials);
    concat_laws(parts);
    let counts = parts.map_values(|part: Seq<Release<A>>| frees(part));
    assert forall|i: int| 0 <= i < parts.len() implies orderly(#[trigger] parts[i]) && counts[i]
        == 0 by {
        nothing_freed_laws(parts[i]);
    }
    total_of_zeros(counts);
}

/// `objects` is `before` with one more instance at its end.
pub open spec fn appended(
    objects: Seq<RenderObject>,
    before: Seq<RenderObject>,
    mesh_name: Seq<char>,
    material_name: Seq<char>,
    transform: Transform,
) -> bool {
    &&& objects.len() == before.len() + 1
    &&& objects.take(before.len() as int) == before
    &&& objects.last().mesh_name@ == mesh_name
    &&& objects.last().material_name@ == material_name
    &&& objects.last().transform == transform
}

/// `after` is `before` with every mesh released: the same vertices in
/// the same buffers, which are left without memory.
pub open spec fn released_from<A>(after: Seq<Mesh<A>>, before: Seq<Mesh<A>>) -> bool {
    &&& after.len() == before.len()
    &&& forall|i: int|
        0 <= i < after.len() ==> {
            &&& (#[trigger] after[i]).vertex_buffer.allocation is Released
            &&& after[i].vertex_buffer.buffer == before[i].vertex_buffer.buffer
            &&& after[i].vertices == before[i].vertices
        }
}

/// Releases every mesh of a list, the first mesh first.
pub fn release_meshes<A>(meshes: &mut Vec<Mesh<A>>, steps: &mut Vec<Release<A>>)
    ensures
        final(steps)@ == old(steps)@ + concat(mesh_teardowns(old(meshes)@)),
        released_from(final(meshes)@, old(meshes)@),
{
    let ghost parts = mesh_teardowns(old(meshes)@);
    let mut i: usize = 0;
    proof {
        assert(steps@ =~= old(steps)@ + concat(parts.take(0)));
    }
    while i < meshes.len()
        invariant
            i <= meshes@.len(),
            parts == mesh_teardowns(old(meshes)@),
            meshes@.len() == old(meshes)@.len(),
            steps@ == old(steps)@ + concat(parts.take(i as int)),
            forall|j: int| i <= j < meshes@.len() ==> meshes@[j] == old(meshes)@[j],
            forall|j: int|
                0 <= j < i ==> {
                    &&& (#[trigger] meshes@[j]).vertex_buffer.allocation is Released
                    &&& meshes@[j].vertex_buffer.buffer == old(meshes)@[j].vertex_buffer.buffer
                    &&& meshes@[j].vertices == old(meshes)@[j].vertices
                },
        decreases meshes@.len() - i,
    {
        proof {
            concat_take_next(parts, i as int);
        }
        meshes[i].vertex_buffer.release(steps);
        proof {
            assert(steps@ =~= old(steps)@ + concat(parts.take(i + 1)));
        }
        i = i + 1;
    }
    proof {
        assert(parts.take(i as int) =~= parts);
    }
}

/// Destroys the pipelines of every material of a list, the first
/// material first.
pub fn destroy_materials<A>(materials: &Vec<Material>, steps: &mut Vec<Release<A>>)
    ensures
        final(steps)@ == old(steps)@ + concat(material_teardowns::<A>(materials@)),
{
    let ghost parts = material_teardowns::<A>(materials@);
    let mut i: usize = 0;
    proof {
        assert(steps@ =~= old(steps)@ + concat(parts.take(0)));
    }
    while i < materials.len()
        invariant
            i <= materials@.len(),
            parts == material_teardowns::<A>(materials@),
            steps@ == old(steps)@ + concat(parts.take(i as int)),
        decreases materials@.len() - i,
    {
        proof {
            concat_take_next(parts, i as int);
        }
        materials[i].pipeline.push_teardown(steps);
        proof {
            assert(steps@ =~= old(steps)@ + concat(parts.take(i + 1)));
        }
        i = i + 1;
    }
    proof {
        assert(parts.take(i as int) =~= parts);
    }
}

impl<A> Scene<A> {
    /// Both tables are well-formed.
    pub open spec fn well_formed(&self) -> bool {
        self.meshes.well_formed() && self.materials.well_formed()
    }

    /// The mesh and the material that an instance names are in the scene.
    pub open spec fn resolves(&self, object: RenderObject) -> bool {
        &&& self.meshes@.contains_key(object.mesh_name@)
        &&& self.materials@.contains_key(object.material_name@)
    }

    /// An instance can be drawn: its names resolve, one draw covers its
    /// mesh, and its material has a pipeline to bind.
    pub open spec fn can_draw(&self, object: RenderObject) -> bool {
        &&& self.resolves(object)
        &&& self.meshes@[object.mesh_name@].drawable()
        &&& self.materials@[object.material_name@].pipeline.pipelines@.len() > 0
    }

    /// Every instance of the scene can be drawn.
    pub open spec fn drawable(&self) -> bool {
        &&& self.well_formed()
        &&& forall|i: int| 0 <= i < self.objects@.len() ==> self.can_draw(#[trigger] self.objects@[i])
    }

    /// What a teardown of the scene consists of: every mesh, those still
    /// named first, then every material, those still named first. A mesh
    /// loses its vertex buffer and then the memory behind it; a material
    /// loses its pipelines and then their layout.
    pub open spec fn teardown_steps(&self) -> Seq<Release<A>> {
        concat(mesh_teardowns(self.meshes.values@)) + concat(mesh_teardowns(self.retired_meshes@))
            + concat(material_teardowns::<A>(self.materials.values@)) + concat(
            material_teardowns::<A>(self.retired_materials@),
        )
    }

    /// What is still to be torn down: every step of a teardown, or
    /// nothing once it has been done.
    pub open spec fn pending_steps(&self) -> Seq<Release<A>> {
        if self.released {
            Seq::empty()
        } else {
            self.teardown_steps()
        }
    }

    /// How many memory blocks the scene holds.
    pub open spec fn blocks_held(&self) -> nat {
        mesh_blocks(self.meshes.values@) + mesh_blocks(self.retired_meshes@)
    }

    /// How many memory blocks are still to be freed.
    pub open spec fn live_blocks(&self) -> nat {
        if self.released {
            0
        } else {
            self.blocks_held()
        }
    }

    /// Tearing the scene down frees exactly the blocks it holds, those of
    /// meshes that lost their name too, each only after its buffer is
    /// destroyed.
    pub proof fn teardown_laws(&self)
        ensures
            frees(self.pending_steps()) == self.live_blocks(),
            orderly(self.pending_steps()),
    {
        if self.released {
            nothing_freed_laws(Seq::<Release<A>>::empty());
        } else {
            let a = concat(mesh_teardowns(self.meshes.values@));
            let b = concat(mesh_teardowns(self.retired_meshes@));
            let c = concat(material_teardowns::<A>(self.materials.values@));
            let d = concat(material_teardowns::<A>(self.retired_materials@));
            mesh_teardown_laws(self.meshes.values@);
            mesh_teardown_laws(self.retired_meshes@);
            material_teardown_laws::<A>(self.materials.values@);
            material_teardown_laws::<A>(self.retired_materials@);
            frees_of_sum(a, b);
            orderly_sum(a, b);
            frees_of_sum(a + b, c);
            orderly_sum(a + b, c);
            frees_of_sum(a + b + c, d);
            orderly_sum(a + b + c, d);
        }
    }

    /// Tearing the scene down only destroys and frees.
    pub proof fn teardown_touches(&self)
        ensures
            only_touching(self.pending_steps()),
    {
        let meshes = mesh_teardowns(self.meshes.values@);
        let retired_meshes = mesh_teardowns(self.retired_meshes@);
        let materials = material_teardowns::<A>(self.materials.values@);
        let retired_materials = material_teardowns::<A>(self.retired_materials@);
        assert forall|i: int| 0 <= i < meshes.len() implies only_touching(#[trigger] meshes[i]) by {}
        assert forall|i: int| 0 <= i < retired_meshes.len() implies only_touching(
            #[trigger] retired_meshes[i],
        ) by {}
        assert forall|i: int| 0 <= i < materials.len() implies only_touching(
            #[trigger] materials[i],
        ) by {}
        assert forall|i: int| 0 <= i < retired_materials.len() implies only_touching(
            #[trigger] retired_materials[i],
        ) by {}
        concat_keeps_touching(meshes);
        concat_keeps_touching(retired_meshes);
        concat_keeps_touching(materials);
        concat_keeps_touching(retired_materials);
    }

    /// A scene without meshes, materials and instances.
    pub fn new() -> (scene: Self)
        ensures
            scene.well_formed(),
            scene.objects@.len() == 0,
            scene.meshes@ == Map::<Seq<char>, Mesh<A>>::empty(),
            scene.materials@ == Map::<Seq<char>, Material>::empty(),
            scene.retired_meshes@.len() == 0,
            scene.retired_materials@.len() == 0,
            !scene.released,
            scene.drawable(),
    {
        Scene {
            objects: Vec::new(),
            meshes: Table::new(),
            materials: Table::new(),
            retired_meshes: Vec::new(),
            retired_materials: Vec::new(),
            released: false,
        }
    }

    /// Stores the mesh and the material under their names, each in place
    /// of what had the name before, and appends one instance of them.
    pub fn add_render_object_with_mesh_material(
        &mut self,
        mesh_name: &str,
        mesh: Mesh<A>,
        material_name: &str,
        material: Material,
        transform: Transform,
    )
        requires
            old(self).well_formed(),
        ensures
            final(self).well_formed(),
            final(self).meshes@ == old(self).meshes@.insert(mesh_name@, mesh),
            final(self).materials@ == old(self).materials@.insert(material_name@, material),
            appended(
                final(self).objects@,
                old(self).objects@,
                mesh_name@,
                material_name@,
                transform,
            ),
            final(self).retired_meshes@ == (if old(self).meshes@.contains_key(mesh_name@) {
                old(self).retired_meshes@.push(old(self).meshes@[mesh_name@])
            } else {
                old(self).retired_meshes@
            }),
            final(self).retired_materials@ == (if old(self).materials@.contains_key(
                material_name@,
            ) {
                old(self).retired_materials@.push(old(self).materials@[material_name@])
            } else {
                old(self).retired_materials@
            }),
            final(self).released == old(self).released,
    {
        self.store_mesh(mesh_name, mesh);
        self.store_material(material_name, material);
        self.add_render_object(mesh_name, material_name, transform);
    }

    /// Stores the mesh under its name, in place of what had the name
    /// before, and appends one instance of it with a material that the
    /// scene is to hold by the time it is drawn.
    pub fn add_render_object_with_mesh(
        &mut self,
        mesh_name: &str,
        mesh: Mesh<A>,
        material_name: &str,
        transform: Transform,
    )
        requires
            old(self).well_formed(),
        ensures
            final(self).well_formed(),
            final(self).meshes@ == old(self).meshes@.insert(mesh_name@, mesh),
            final(self).materials == old(self).materials,
            appended(
                final(self).objects@,
                old(self).objects@,
                mesh_name@,
                material_name@,
                transform,
            ),
            final(self).retired_meshes@ == (if old(self).meshes@.contains_key(mesh_name@) {
                old(self).retired_meshes@.push(old(self).meshes@[mesh_name@])
            } else {
                old(self).retired_meshes@
            }),
            final(self).retired_materials == old(self).retired_materials,
            final(self).released == old(self).released,
    {
        self.store_mesh(mesh_name, mesh);
        self.add_render_object(mesh_name, material_name, transform);
    }

    /// Appends one instance of a mesh and a material that the scene is to
    /// hold by the time it is drawn.
    pub fn add_render_object(&mut self, mesh_name: &str, material_name: &str, transform: Transform)
        ensures
            final(self).meshes == old(self).meshes,
            final(self).materials == old(self).materials,
            appended(
                final(self).objects@,
                old(self).objects@,
                mesh_name@,
                material_name@,
                transform,
            ),
            final(self).retired_meshes == old(self).retired_meshes,
            final(self).retired_materials == old(self).retired_materials,
            final(self).released == old(self).released,
    {
        self.objects.push(
            RenderObject {
                mesh_name: mesh_name.to_string(),
                material_name: material_name.to_string(),
                transform,
            },
        );
        proof {
            assert(self.objects@.take(old(self).objects@.len() as int) =~= old(self).objects@);
        }
    }

    fn store_mesh(&mut self, mesh_name: &str, mesh: Mesh<A>)
        requires
            old(self).well_formed(),
        ensures
            final(self).well_formed(),
            final(self).meshes@ == old(self).meshes@.insert(mesh_name@, mesh),
            final(self).materials == old(self).materials,
            final(self).objects == old(self).objects,
            final(self).retired_meshes@ == (if old(self).meshes@.contains_key(mesh_name@) {
                old(self).retired_meshes@.push(old(self).meshes@[mesh_name@])
            } else {
                old(self).retired_meshes@
            }),
            final(self).retired_materials == old(self).retired_materials,
            final(self).released == old(self).released,
    {
        match self.meshes.insert(mesh_name.to_string(), mesh) {
            Some(displaced) => {
                self.retired_meshes.push(displaced);
            },
            None => {},
        }
    }

    fn store_material(&mut self, material_name: &str, material: Material)
        requires
            old(self).well_formed(),
        ensures
            final(self).well_formed(),
            final(self).materials@ == old(self).materials@.insert(material_name@, material),
            final(self).meshes == old(self).meshes,
            final(self).objects == old(self).objects,
            final(self).retired_materials@ == (if old(self).materials@.contains_key(
                material_name@,
            ) {
                old(self).retired_materials@.push(old(self).materials@[material_name@])
            } else {
                old(self).retired_materials@
            }),
            final(self).retired_meshes == old(self).retired_meshes,
            final(self).released == old(self).released,
    {
        match self.materials.insert(material_name.to_string(), material) {
            Some(displaced) => {
                self.retired_materials.push(displaced);
            },
            None => {},
        }
    }

    /// The instances, in the order in which they were added.
    pub fn iterate(&self) -> (objects: &Vec<RenderObject>)
        ensures
            objects@ == self.objects@,
    {
        &self.objects
    }

    /// Whether both tables are well-formed.
    pub fn is_well_formed(&self) -> (well_formed: bool)
        ensures
            well_formed == self.well_formed(),
    {
        self.meshes.is_well_formed() && self.materials.is_well_formed()
    }

    /// Whether every instance of the scene can be drawn.
    pub fn is_drawable(&self) -> (drawable: bool)
        requires
            self.well_formed(),
        ensures
            drawable == self.drawable(),
    {
        let mut i: usize = 0;
        while i < self.objects.len()
            invariant
                i <= self.objects@.len(),
                self.well_formed(),
                forall|j: int| 0 <= j < i ==> self.can_draw(#[trigger] self.objects@[j]),
            decreases self.objects@.len() - i,
        {
            let object = &self.objects[i];
            let fits = match self.meshes.get(&object.mesh_name) {
                Some(mesh) => mesh.vertices.len() <= u32::MAX as usize,
                None => false,
            };
            let binds = match self.materials.get(&object.material_name) {
                Some(material) => material.pipeline.pipelines.len() > 0,
                None => false,
            };
            if !(fits && binds) {
                return false;
            }
            i = i + 1;
        }
        true
    }

    /// Tears the scene down. The first call returns the steps to carry
    /// out, in order, and leaves no mesh with memory; any later call
    /// returns none.
    pub fn cleanup(&mut self) -> (steps: Vec<Release<A>>)
        ensures
            final(self).released,
            old(self).well_formed() ==> final(self).well_formed(),
            final(self).objects == old(self).objects,
            final(self).materials == old(self).materials,
            final(self).retired_materials == old(self).retired_materials,
            final(self).meshes.names == old(self).meshes.names,
            final(self).meshes.values@.len() == old(self).meshes.values@.len(),
            final(self).retired_meshes@.len() == old(self).retired_meshes@.len(),
            steps@ == old(self).pending_steps(),
            !old(self).released ==> released_from(final(self).meshes.values@, old(self).meshes.values@),
            !old(self).released ==> released_from(
                final(self).retired_meshes@,
                old(self).retired_meshes@,
            ),
            old(self).released ==> final(self).meshes == old(self).meshes && final(self).retired_meshes == old(self).retired_meshes,
    {
        let mut steps: Vec<Release<A>> = Vec::new();
        if self.released {
            return steps;
        }
        self.released = true;
        release_meshes(&mut self.meshes.values, &mut steps);
        release_meshes(&mut self.retired_meshes, &mut steps);
        destroy_materials(&self.materials.values, &mut steps);
        destroy_materials(&self.retired_materials, &mut steps);
        proof {
            assert(steps@ =~= old(self).teardown_steps());
        }
        steps
    }
}

} // verus!
