//! Reading the words of a packed scene.

use crate::config::ConfigUniform;
use crate::path::Transform;
use vstd::prelude::*;

verus! {

/// Read draw tag, guarded by number of draw objects.
///
/// The `ix` argument is allowed to exceed the number of draw objects,
/// in which case a no-operation is returned.
pub fn read_draw_tag_from_scene(config: &ConfigUniform, scene: &[u32], ix: u32) -> (tag: u32)
    requires
        ix < config.layout.n_draw_objects ==> config.layout.draw_tag_base + ix <= u32::MAX && config.layout.draw_tag_base
            + ix < scene@.len(),
    ensures
        ix < config.layout.n_draw_objects ==> tag == scene@[config.layout.draw_tag_base + ix],
        ix >= config.layout.n_draw_objects ==> tag == 0,
        ix < config.layout.n_draw_objects ==> tag == scene@.skip(config.layout.draw_tag_base as int)[ix as int],
{
    if ix < config.layout.n_draw_objects {
        let tag_ix: u32 = config.layout.draw_tag_base + ix;
        scene[tag_ix as usize]
    } else {
        0
    }
}

impl Transform {
    /// The words of a transform in a packed scene.
    pub open spec fn words(self) -> Seq<u32> {
        seq![self.xx, self.xy, self.yx, self.yy, self.dx, self.dy]
    }

    /// Reads the transform at `ix` of a scene whose transforms start at `transform_base`.
    pub fn read(transform_base: u32, ix: u32, data: &[u32]) -> (transform: Self)
        requires
            transform_base + 6 * ix <= u32::MAX,
            transform_base + 6 * ix + 6 <= data@.len(),
        ensures
            transform.words() == data@.subrange(transform_base + 6 * ix, transform_base + 6 * ix + 6),
    {
        let base: usize = (transform_base + ix * 6) as usize;
        let transform: Transform = Transform {
            xx: data[base],
            xy: data[base + 1],
            yx: data[base + 2],
            yy: data[base + 3],
            dx: data[base + 4],
            dy: data[base + 5],
        };
        assert(transform.words() =~= data@.subrange(base as int, base + 6));
        transform
    }
}

/// The words of some transforms, one after the other.
pub open spec fn packed_transforms(transforms: Seq<Transform>) -> Seq<u32> {
    Seq::new(6 * transforms.len(), |i: int| transforms[i / 6].words()[i % 6])
}

/// What is read of packed transforms is what was packed: the words at `ix` are those of the
/// transform at `ix`, and no other transform has them.
pub proof fn packed_transforms_are_read_back(
    before: Seq<u32>,
    transforms: Seq<Transform>,
    after: Seq<u32>,
    ix: int,
    read: Transform,
)
    requires
        0 <= ix < transforms.len(),
        read.words() == (before + packed_transforms(transforms) + after).subrange(
            before.len() + 6 * ix,
            before.len() + 6 * ix + 6,
        ),
    ensures
        read == transforms[ix],
{
    let data = before + packed_transforms(transforms) + after;
    let words = transforms[ix].words();
    assert forall|k: int| 0 <= k < 6 implies #[trigger] read.words()[k] == words[k] by {
        assert(data[before.len() + 6 * ix + k] == packed_transforms(transforms)[6 * ix + k]);
    }
    assert(read.words()[0] == words[0]);
    assert(read.words()[1] == words[1]);
    assert(read.words()[2] == words[2]);
    assert(read.words()[3] == words[3]);
    assert(read.words()[4] == words[4]);
    assert(read.words()[5] == words[5]);
}

} // verus!
