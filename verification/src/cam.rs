//! Which camera a frame is seen through.

use crate::scene::{Scene, SceneView};
use crate::search::{first_index, lemma_first_index, lemma_first_index_is, lemma_first_index_none};
use vstd::prelude::*;

verus! {

impl SceneView {
    /// Whether the entity can serve as the camera: it is in the scene and has both
    /// a camera and a transform.
    pub open spec fn has_viewpoint(self, e: int) -> bool {
        &&& 0 <= e < self.entities.len()
        &&& self.entities[e].camera is Some
        &&& self.entities[e].transform is Some
    }

    /// The first entity that can serve as the camera.
    pub open spec fn first_viewpoint(self) -> Option<int> {
        first_index(self.entities.len() as int, |e: int| self.has_viewpoint(e))
    }

    /// Whether the scene names an entity as its camera that can serve as one.
    pub open spec fn active_viewpoint(self) -> bool {
        self.active_camera is Some && self.has_viewpoint(self.active_camera.unwrap() as int)
    }

    /// The camera of the frame: the entity that the scene names as its camera,
    /// where it can serve as one; else the first entity that can; else none.
    pub open spec fn camera(self) -> Option<int> {
        if self.active_viewpoint() {
            Some(self.active_camera.unwrap() as int)
        } else {
            self.first_viewpoint()
        }
    }
}

/// The camera of a frame is an entity of the scene with both a camera and a
/// transform.
pub proof fn lemma_camera_has_viewpoint(scene: SceneView)
    ensures
        scene.camera() matches Some(c) ==> scene.has_viewpoint(c),
{
    lemma_first_index(scene.entities.len() as int, |e: int| scene.has_viewpoint(e));
}

impl Scene {
    /// Whether the entity can serve as the camera.
    pub fn has_viewpoint(&self, e: usize) -> (has: bool)
        ensures
            has == self@.has_viewpoint(e as int),
    {
        e < self.entities.len() && self.entities[e].camera.is_some()
            && self.entities[e].transform.is_some()
    }

    /// Picks the camera of the frame: the entity that the scene names as its
    /// camera, where that entity has both a camera and a transform; else the first
    /// entity that has both; `None` where no entity has both.
    pub fn resolve_camera(&self) -> (camera: Option<usize>)
        ensures
            match camera {
                Some(c) => self@.camera() == Some(c as int),
                None => self@.camera() is None,
            },
    {
        match self.active_camera {
            Some(a) => {
                if self.has_viewpoint(a) {
                    return Some(a);
                }
            },
            None => {},
        }
        let ghost p = |e: int| self@.has_viewpoint(e);
        assert(self@.camera() == self@.first_viewpoint());
        let mut e: usize = 0;
        while e < self.entities.len()
            invariant
                e <= self.entities.len(),
                self@.camera() == self@.first_viewpoint(),
                p == (|e: int| self@.has_viewpoint(e)),
                forall|j: int| 0 <= j < e ==> !#[trigger] p(j),
            decreases self.entities.len() - e,
        {
            if self.has_viewpoint(e) {
                proof {
                    assert(p(e as int));
                    lemma_first_index_is(self.entities.len() as int, p, e as int);
                }
                return Some(e);
            }
            assert(!p(e as int));
            e += 1;
        }
        proof {
            lemma_first_index_none(self.entities.len() as int, p);
        }
        None
    }
}

} // verus!
