//! Static geometry: the selectable meshes and their vertex/index tables.

use vstd::prelude::*;

verus! {

/// One mesh vertex: a fixed-point position and texture coordinates.
#[derive(Clone, Copy, Debug, PartialEq, Eq, Structural)]
pub struct Vertex {
    pub px: i128,
    pub py: i128,
    pub pz: i128,
    pub tu: i128,
    pub tv: i128,
}

/// The selectable mesh variants.
#[derive(Clone, Copy, Debug, PartialEq, Eq, Structural)]
pub enum RenderShape {
    OCTAGON,
    SQUARE,
}

/// The selectable texture variants.
#[derive(Clone, Copy, Debug, PartialEq, Eq, Structural)]
pub enum TextureLoad {
    TREE,
    DIRT,
}

impl TextureLoad {
    pub open spec fn spec_toggled(self) -> TextureLoad {
        match self {
            TextureLoad::TREE => TextureLoad::DIRT,
            TextureLoad::DIRT => TextureLoad::TREE,
        }
    }

    /// The cycle-next operation over the closed set of texture variants.
    pub fn toggled(&self) -> (r: TextureLoad)
        ensures
            r == self.spec_toggled(),
    {
        match self {
            TextureLoad::TREE => TextureLoad::DIRT,
            TextureLoad::DIRT => TextureLoad::TREE,
        }
    }
}

/// The unit square, corners at eight tenths (3277 fixed-point units, the
/// nearest representable value) on each axis.
pub open spec fn spec_square_vertices() -> Seq<Vertex> {
    seq![
        Vertex { px: -3277i128, py: 3277, pz: 0, tu: 0, tv: 4096 },
        Vertex { px: 3277, py: 3277, pz: 0, tu: 4096, tv: 4096 },
        Vertex { px: 3277, py: -3277i128, pz: 0, tu: 0, tv: 0 },
        Vertex { px: -3277i128, py: -3277i128, pz: 0, tu: 0, tv: 0 },
    ]
}

pub open spec fn spec_square_indices() -> Seq<u16> {
    seq![1u16, 0u16, 3u16, 3u16, 2u16, 1u16]
}

/// An octagon fan around the origin, radius one.
pub open spec fn spec_octagon_vertices() -> Seq<Vertex> {
    seq![
        Vertex { px: 0, py: 0, pz: 0, tu: 4096, tv: 0 },
        Vertex { px: -2048i128, py: -2048i128, pz: 0, tu: 0, tv: 4096 },
        Vertex { px: 0, py: -4096i128, pz: 0, tu: 0, tv: 0 },
        Vertex { px: -4096i128, py: 0, pz: 0, tu: 0, tv: 0 },
        Vertex { px: -2048i128, py: 2048, pz: 0, tu: 0, tv: 0 },
        Vertex { px: 0, py: 4096, pz: 0, tu: 0, tv: 0 },
        Vertex { px: 2048, py: 2048, pz: 0, tu: 0, tv: 0 },
        Vertex { px: 4096, py: 0, pz: 0, tu: 0, tv: 0 },
        Vertex { px: 2048, py: -2048i128, pz: 0, tu: 0, tv: 0 },
    ]
}

pub open spec fn spec_octagon_indices() -> Seq<u16> {
    seq![
        0u16, 1u16, 2u16, 0u16, 3u16, 1u16, 0u16, 4u16, 3u16, 0u16, 5u16, 4u16, 6u16, 5u16,
        0u16, 7u16, 6u16, 0u16, 7u16, 0u16, 2u16,
    ]
}

impl RenderShape {
    pub open spec fn spec_vertices(self) -> Seq<Vertex> {
        match self {
            RenderShape::OCTAGON => spec_octagon_vertices(),
            RenderShape::SQUARE => spec_square_vertices(),
        }
    }

    pub open spec fn spec_indices(self) -> Seq<u16> {
        match self {
            RenderShape::OCTAGON => spec_octagon_indices(),
            RenderShape::SQUARE => spec_square_indices(),
        }
    }

    /// The vertex table of this mesh.
    pub fn vertices(&self) -> (r: Vec<Vertex>)
        ensures
            r@ == self.spec_vertices(),
    {
        match self {
            RenderShape::OCTAGON => {
                let mut v: Vec<Vertex> = Vec::new();
                v.push(Vertex { px: 0, py: 0, pz: 0, tu: 4096, tv: 0 });
                v.push(Vertex { px: -2048i128, py: -2048i128, pz: 0, tu: 0, tv: 4096 });
                v.push(Vertex { px: 0, py: -4096i128, pz: 0, tu: 0, tv: 0 });
                v.push(Vertex { px: -4096i128, py: 0, pz: 0, tu: 0, tv: 0 });
                v.push(Vertex { px: -2048i128, py: 2048, pz: 0, tu: 0, tv: 0 });
                v.push(Vertex { px: 0, py: 4096, pz: 0, tu: 0, tv: 0 });
                v.push(Vertex { px: 2048, py: 2048, pz: 0, tu: 0, tv: 0 });
                v.push(Vertex { px: 4096, py: 0, pz: 0, tu: 0, tv: 0 });
                v.push(Vertex { px: 2048, py: -2048i128, pz: 0, tu: 0, tv: 0 });
                proof {
                    assert(v@ =~= spec_octagon_vertices());
                }
                v
            },
            RenderShape::SQUARE => {
                let mut v: Vec<Vertex> = Vec::new();
                v.push(Vertex { px: -3277i128, py: 3277, pz: 0, tu: 0, tv: 4096 });
                v.push(Vertex { px: 3277, py: 3277, pz: 0, tu: 4096, tv: 4096 });
                v.push(Vertex { px: 3277, py: -3277i128, pz: 0, tu: 0, tv: 0 });
                v.push(Vertex { px: -3277i128, py: -3277i128, pz: 0, tu: 0, tv: 0 });
                proof {
                    assert(v@ =~= spec_square_vertices());
                }
                v
            },
        }
    }

    /// The index table of this mesh (a triangle list).
    pub fn indices(&self) -> (r: Vec<u16>)
        ensures
            r@ == self.spec_indices(),
    {
        match self {
            RenderShape::OCTAGON => {
                let mut v: Vec<u16> = Vec::new();
                v.push(0);
                v.push(1);
                v.push(2);
                v.push(0);
                v.push(3);
                v.push(1);
                v.push(0);
                v.push(4);
                v.push(3);
                v.push(0);
                v.push(5);
                v.push(4);
                v.push(6);
                v.push(5);
                v.push(0);
                v.push(7);
                v.push(6);
                v.push(0);
                v.push(7);
                v.push(0);
                v.push(2);
                proof {
                    assert(v@ =~= spec_octagon_indices());
                }
                v
            },
            RenderShape::SQUARE => {
                let mut v: Vec<u16> = Vec::new();
                v.push(1);
                v.push(0);
                v.push(3);
                v.push(3);
                v.push(2);
                v.push(1);
                proof {
                    assert(v@ =~= spec_square_indices());
                }
                v
            },
        }
    }

    /// How many indices one indexed draw of this mesh covers.
    pub fn index_count(&self) -> (r: u32)
        ensures
            r as int == self.spec_indices().len(),
    {
        match self {
            RenderShape::OCTAGON => 21,
            RenderShape::SQUARE => 6,
        }
    }
}

} // verus!
