//! A registry of loaded mesh descriptions and their uploaded geometry
//! handles. File parsing and GPU upload happen outside the library; this
//! keeps the bookkeeping that ties a mesh to its vertex-array handle.

use vstd::prelude::*;

verus! {

/// What the library needs to know about one loaded mesh: how much
/// geometry it carries.
#[derive(Clone, Copy, Debug, PartialEq, Eq, Structural)]
pub struct MeshInfo {
    pub vertex_count: usize,
    pub index_count: i32,
}

/// Loaded meshes and, once generated, one vertex-array handle per mesh.
pub struct Meshes {
    pub vaos: Vec<u32>,
    pub meshes: Vec<MeshInfo>,
}

impl Meshes {
    pub fn new() -> (r: Meshes)
        ensures
            r.vaos@.len() == 0,
            r.meshes@.len() == 0,
    {
        Meshes { vaos: Vec::new(), meshes: Vec::new() }
    }

    /// Register one loaded mesh.
    pub fn add(&mut self, mesh: MeshInfo)
        ensures
            final(self).meshes@ == old(self).meshes@.push(mesh),
            final(self).vaos == old(self).vaos,
    {
        self.meshes.push(mesh);
    }

    /// Register a batch of loaded meshes, in order.
    pub fn add_all(&mut self, meshes: &Vec<MeshInfo>)
        ensures
            final(self).meshes@ == old(self).meshes@ + meshes@,
            final(self).vaos == old(self).vaos,
    {
        let ghost pre = self.meshes@;
        let mut i: usize = 0;
        while i < meshes.len()
            invariant
                0 <= i <= meshes@.len(),
                self.meshes@ == pre + meshes@.take(i as int),
                self.vaos == old(self).vaos,
                pre == old(self).meshes@,
            decreases meshes@.len() - i,
        {
            self.meshes.push(meshes[i]);
            proof {
                assert(pre + meshes@.take(i as int + 1) =~= (pre + meshes@.take(i as int)).push(
                    meshes@[i as int],
                ));
            }
            i += 1;
        }
        proof {
            assert(meshes@.take(meshes@.len() as int) =~= meshes@);
        }
    }

    /// Record the vertex-array handle generated for the next mesh.
    pub fn add_vao(&mut self, vao: u32)
        ensures
            final(self).vaos@ == old(self).vaos@.push(vao),
            final(self).meshes == old(self).meshes,
    {
        self.vaos.push(vao);
    }

    pub fn len(&self) -> (r: usize)
        ensures
            r == self.meshes@.len(),
    {
        self.meshes.len()
    }
}

} // verus!
