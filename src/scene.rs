//! Scenes, the registry that names them, and the decisions of the router
//! actor: it reads one framed select request from a connection and hands the
//! connection to the actor of the scene asked for, or turns it down.
use vstd::prelude::*;
use std::collections::HashMap;
use crate::protos::{frame, frame_bytes, response_bytes, SelectSceneResponse};

verus! {

broadcast use vstd::std_specs::hash::group_hash_axioms;

/// A protocol branch that a client can select, each served by its own actor.
#[derive(Clone, Copy, Debug, PartialEq, Eq, Structural)]
pub enum Scene {
    SceneA,
}

/// The frame that the actor of scene `s` writes first on its connection.
pub open spec fn scene_reply(s: Scene) -> Seq<u8> {
    match s {
        Scene::SceneA => frame_bytes(response_bytes(SelectSceneResponse { success: true })),
    }
}

impl Scene {
    /// The frame that this scene's actor writes first: a successful select
    /// response with its length in front.
    pub fn response_frame(&self) -> (r: Vec<u8>)
        ensures
            r@ == scene_reply(*self),
            r@ == seq![2u8, 8u8, 1u8],
    {
        match self {
            Scene::SceneA => {
                let response = SelectSceneResponse { success: true };
                let body = response.encode();
                assert(crate::wire::varint_bytes(8) =~= seq![8u8]);
                assert(crate::wire::varint_bytes(1) =~= seq![1u8]);
                assert(body@ =~= seq![8u8, 1u8]);
                let r = frame(&body);
                assert(r@ =~= seq![2u8, 8u8, 1u8]);
                r
            },
        }
    }
}

/// The scenes that a router knows, by identifier.
pub open spec fn known_scenes() -> Map<u32, Scene> {
    map![1u32 => Scene::SceneA]
}

/// A fixed map from scene identifiers to scenes, built once per router.
#[derive(Debug)]
pub struct SceneRegistry {
    scenes: HashMap<u32, Scene>,
}

impl View for SceneRegistry {
    type V = Map<u32, Scene>;

    closed spec fn view(&self) -> Map<u32, Scene> {
        self.scenes@
    }
}

impl SceneRegistry {
    /// The registry of every scene that the server serves.
    pub fn new() -> (r: SceneRegistry)
        ensures
            r@ == known_scenes(),
    {
        let mut scenes: HashMap<u32, Scene> = HashMap::new();
        scenes.insert(1, Scene::SceneA);
        assert(scenes@ =~= known_scenes());
        SceneRegistry { scenes }
    }

    /// The scene registered under `scene_id`, if any.
    pub fn get(&self, scene_id: u32) -> (r: Option<Scene>)
        ensures
            r == (if self@.contains_key(scene_id) {
                Some(self@[scene_id])
            } else {
                None
            }),
    {
        match self.scenes.get(&scene_id) {
            Some(s) => Some(*s),
            None => None,
        }
    }
}

} // verus!
