//! The stage: the scenes of the viewer by name, and which of them is on.
//!
//! A scene is one of the things that can be displayed. What it is decides
//! which capabilities it has: input, per-frame updates and a start-up hook
//! do nothing for a scene that has no use for them.

use vstd::hash_map::StringHashMap;
use vstd::prelude::*;
use crate::actions::Action;
use crate::display::Button;
use crate::display::Image;
use crate::display::presses;
use crate::gesture::RawInputEvent;
use crate::loader::LoadRegister;
use crate::thumbs::grid_outcome;
use crate::view::GalleryView;
use crate::view::Preview;
use crate::view::ScrollView;

verus! {

/// The name of the scene that shows one picture by itself.
pub const PREVIEW_SCENE: &'static str = "preview";

/// The name of the scene that shows the grid of thumbnails.
pub const GALLERY_SCENE: &'static str = "gallery";

/// Something that can be displayed.
pub enum Scene {
    Image(Image),
    Button(Button),
    Gallery(GalleryView),
    Preview(Preview),
    Scroll(ScrollView),
}

/// What a scene needs to know of a frame: the clock and the viewport.
#[derive(Clone, Copy, Debug, PartialEq, Eq, Structural)]
pub struct Frame {
    /// The reading of the monotonic clock in milliseconds.
    pub now: u64,
    /// The size of the viewport in pixels.
    pub width: u32,
    pub height: u32,
}

impl Scene {
    /// The scene is consistent.
    pub open spec fn wf(&self) -> bool {
        match self {
            Scene::Image(_) => true,
            Scene::Button(b) => b.wf(),
            Scene::Gallery(g) => g.wf(),
            Scene::Preview(p) => p.wf(),
            Scene::Scroll(v) => v.wf(),
        }
    }

    /// The change of scene that this scene asks for when it is handed the
    /// raw event `evt`: a button that is tapped asks for the gallery, a
    /// thumbnail that is tapped for its picture, and nothing else for
    /// anything.
    pub open spec fn action_for(&self, evt: RawInputEvent, frame: Frame) -> Option<Action> {
        match self {
            Scene::Button(b) => if presses(
                b.detector().yields(evt),
                b.rect()@,
                frame.width,
                frame.height,
            ) {
                Some(Action::ShowGallery)
            } else {
                None
            },
            Scene::Gallery(g) => grid_outcome(
                g.dragging(),
                g.detector().yields(evt),
                g.viewport().0,
                g.viewport().1,
                g.images().len() as int,
            ).1,
            _ => None,
        }
    }

    /// Whether `after` is this scene once it has handled the raw event
    /// `evt`. A scene that takes no input stays as it is.
    pub open spec fn handled(
        &self,
        after: &Scene,
        evt: RawInputEvent,
        frame: Frame,
        sizes: Map<Seq<char>, (u32, u32)>,
    ) -> bool {
        match (self, after) {
            (Scene::Image(a), Scene::Image(b)) => a == b,
            (Scene::Scroll(a), Scene::Scroll(b)) => a == b,
            (Scene::Button(a), Scene::Button(b)) => {
                &&& b.wf()
                &&& b.rect() == a.rect()
                &&& b.img() == a.img()
                &&& a.detector().leads_to(&b.detector(), evt)
            },
            (Scene::Gallery(a), Scene::Gallery(b)) => {
                &&& b.wf()
                &&& b.images() == a.images()
                &&& b.viewport() == a.viewport()
                &&& a.detector().leads_to(&b.detector(), evt)
                &&& b.dragging() == grid_outcome(
                    a.dragging(),
                    a.detector().yields(evt),
                    a.viewport().0,
                    a.viewport().1,
                    a.images().len() as int,
                ).0
            },
            (Scene::Preview(a), Scene::Preview(b)) => {
                &&& b.wf()
                &&& a.detector().leads_to(&b.detector(), evt)
                &&& b@ == a@.handled_all(a.detector().yields(evt), frame.now, sizes)
            },
            _ => false,
        }
    }

    /// Whether `after` is this scene once it has come on stage with the
    /// parameter `params`. Only the carousel has a use for it: it shows the
    /// picture at that position.
    pub open spec fn started(
        &self,
        after: &Scene,
        params: Option<usize>,
        sizes: Map<Seq<char>, (u32, u32)>,
    ) -> bool {
        match (self, after) {
            (Scene::Preview(a), Scene::Preview(b)) => {
                &&& b.wf()
                &&& b.detector() == a.detector()
                &&& b@ == a@.started(params, sizes)
            },
            (Scene::Image(a), Scene::Image(b)) => a == b,
            (Scene::Scroll(a), Scene::Scroll(b)) => a == b,
            (Scene::Button(a), Scene::Button(b)) => a == b,
            (Scene::Gallery(a), Scene::Gallery(b)) => a == b,
            _ => false,
        }
    }

    /// Whether `after` is this scene after one frame. Only the carousel
    /// changes with time.
    pub open spec fn updated(&self, after: &Scene, frame: Frame, sizes: Map<Seq<char>, (u32, u32)>)
        -> bool {
        match (self, after) {
            (Scene::Preview(a), Scene::Preview(b)) => {
                &&& b.wf()
                &&& b.detector() == a.detector()
                &&& b@ == a@.updated(frame.now, sizes)
            },
            (Scene::Image(a), Scene::Image(b)) => a == b,
            (Scene::Scroll(a), Scene::Scroll(b)) => a == b,
            (Scene::Button(a), Scene::Button(b)) => a == b,
            (Scene::Gallery(a), Scene::Gallery(b)) => a == b,
            _ => false,
        }
    }

    /// Hands the scene a raw event, and returns the change of scene that it
    /// asks for; see [`Scene::handled`] and [`Scene::action_for`].
    pub fn handle_events(&mut self, evt: &RawInputEvent, frame: Frame, reg: &LoadRegister) -> (action:
        Option<Action>)
        requires
            old(self).wf(),
        ensures
            final(self).wf(),
            old(self).handled(final(self), *evt, frame, reg.sizes()),
            action == old(self).action_for(*evt, frame),
    {
        match self {
            Scene::Image(_) => None,
            Scene::Scroll(_) => None,
            Scene::Button(b) => b.handle_events(evt, frame.width, frame.height),
            Scene::Gallery(g) => g.handle_events(evt),
            Scene::Preview(p) => p.handle_events(evt, frame.now, reg),
        }
    }

    /// Whether the scene takes part in the handling of input.
    pub fn is_interactive(&self) -> (r: bool)
        ensures
            r == (self is Button || self is Gallery || self is Preview),
    {
        match self {
            Scene::Image(_) => false,
            Scene::Scroll(_) => false,
            Scene::Button(b) => b.is_interactive(),
            Scene::Gallery(g) => g.is_interactive(),
            Scene::Preview(p) => p.is_interactive(),
        }
    }

    /// Advances the scene by one frame; see [`Scene::updated`].
    pub fn update(&mut self, frame: Frame, reg: &LoadRegister)
        requires
            old(self).wf(),
        ensures
            final(self).wf(),
            old(self).updated(final(self), frame, reg.sizes()),
    {
        match self {
            Scene::Preview(p) => {
                p.update(frame.now, reg);
            },
            _ => {},
        }
    }

    /// Brings the scene on stage with the parameter `params`; see
    /// [`Scene::started`].
    pub fn on_start(&mut self, params: Option<usize>, reg: &LoadRegister)
        requires
            old(self).wf(),
        ensures
            final(self).wf(),
            old(self).started(final(self), params, reg.sizes()),
    {
        match self {
            Scene::Preview(p) => {
                p.on_start(params, reg);
            },
            _ => {},
        }
    }
}

/// The name of the scene that the action `action` leads to, if it leads
/// anywhere.
pub open spec fn scene_for(action: Option<Action>) -> Option<Seq<char>> {
    match action {
        Some(Action::ShowPreview(_)) => Some(PREVIEW_SCENE@),
        Some(Action::ShowGallery) => Some(GALLERY_SCENE@),
        None => None,
    }
}

/// The parameter that the next scene is started with after the action
/// `action`: the position of the picture to show, and else what it was.
pub open spec fn params_after(params: Option<usize>, action: Option<Action>) -> Option<usize> {
    match action {
        Some(Action::ShowPreview(i)) => Some(i),
        _ => params,
    }
}

/// The scenes of the viewer by name, the one that is on, and the parameter
/// that a scene is handed when it comes on.
pub struct Stage {
    children: StringHashMap<usize>,
    scenes: Vec<Scene>,
    active_scene: Option<usize>,
    params: Option<usize>,
}

impl Stage {
    /// All scenes that were ever added, in the order in which they were.
    pub closed spec fn scenes(&self) -> Seq<Scene> {
        self.scenes@
    }

    /// The position in [`Stage::scenes`] of the scene that each name
    /// stands for.
    pub closed spec fn children(&self) -> Map<Seq<char>, usize> {
        self.children@
    }

    /// The position of the scene that is on, if one is.
    pub closed spec fn active_scene(&self) -> Option<usize> {
        self.active_scene
    }

    /// The parameter for the next scene to come on.
    pub closed spec fn params(&self) -> Option<usize> {
        self.params
    }

    /// The stage is consistent: every name and the scene that is on refer
    /// to a scene that is there, and every scene is consistent.
    pub open spec fn wf(&self) -> bool {
        &&& forall|k: Seq<char>|
            self.children().contains_key(k) ==> (#[trigger] self.children()[k])
                < self.scenes().len()
        &&& self.active_scene() is Some ==> self.active_scene()->0 < self.scenes().len()
        &&& forall|i: int| 0 <= i < self.scenes().len() ==> (#[trigger] self.scenes()[i]).wf()
    }

    /// Whether the scene at position `j` is the one that is on.
    pub open spec fn is_on(&self, j: int) -> bool {
        self.active_scene() is Some && self.active_scene()->0 == j
    }

    /// Whether the scene at position `j` is the one that `target` names.
    pub open spec fn is_target(target: Option<usize>, j: int) -> bool {
        target is Some && target->0 == j
    }

    /// The position of the scene that comes on after the scene that is on
    /// has asked for `action`: the scene of that name, if there is one.
    pub open spec fn target(&self, action: Option<Action>) -> Option<usize> {
        match scene_for(action) {
            Some(key) => if self.children().contains_key(key) {
                Some(self.children()[key])
            } else {
                None
            },
            None => None,
        }
    }

    /// Whether `after` is this stage once the scene named `key` has been
    /// started: that scene has come on, with the parameter of the stage,
    /// and is now the one that is on. Without a scene of that name nothing
    /// changes.
    pub open spec fn started(&self, after: &Stage, key: Seq<char>, sizes: Map<Seq<char>, (u32, u32)>)
        -> bool {
        &&& after.children() == self.children()
        &&& after.params() == self.params()
        &&& after.scenes().len() == self.scenes().len()
        &&& if self.children().contains_key(key) {
            let i = self.children()[key] as int;
            &&& after.active_scene() == Some(i as usize)
            &&& self.scenes()[i].started(&after.scenes()[i], self.params(), sizes)
            &&& forall|j: int|
                0 <= j < self.scenes().len() && j != i ==> after.scenes()[j] == self.scenes()[j]
        } else {
            &&& after.active_scene() == self.active_scene()
            &&& after.scenes() == self.scenes()
        }
    }

    /// Whether `after` is this stage once the scene that is on has handled
    /// the raw event `evt`, and the stage has followed the action that the
    /// scene asked for: the parameter is set, and the scene that the action
    /// names, if there is one, has come on.
    pub open spec fn handled(
        &self,
        after: &Stage,
        evt: RawInputEvent,
        frame: Frame,
        sizes: Map<Seq<char>, (u32, u32)>,
    ) -> bool {
        &&& after.children() == self.children()
        &&& after.scenes().len() == self.scenes().len()
        &&& match self.active_scene() {
            None => {
                &&& after.scenes() == self.scenes()
                &&& after.active_scene() == self.active_scene()
                &&& after.params() == self.params()
            },
            Some(a) => {
                let action = self.scenes()[a as int].action_for(evt, frame);
                let target = self.target(action);
                &&& after.params() == params_after(self.params(), action)
                &&& after.active_scene() == (match target {
                    Some(t) => Some(t),
                    None => Some(a),
                })
                &&& forall|j: int|
                    0 <= j < self.scenes().len() && j != a && !Self::is_target(target, j)
                        ==> after.scenes()[j] == self.scenes()[j]
                &&& !Self::is_target(target, a as int) ==> self.scenes()[a as int].handled(
                    &after.scenes()[a as int],
                    evt,
                    frame,
                    sizes,
                )
                &&& target is Some && target->0 != a ==> self.scenes()[target->0 as int].started(
                    &after.scenes()[target->0 as int],
                    after.params(),
                    sizes,
                )
                &&& Self::is_target(target, a as int) ==> exists|mid: Scene|
                    {
                        &&& #[trigger] self.scenes()[a as int].handled(&mid, evt, frame, sizes)
                        &&& mid.started(&after.scenes()[a as int], after.params(), sizes)
                    }
            },
        }
    }

    /// A stage without scenes.
    pub fn new() -> (s: Stage)
        ensures
            s.wf(),
            s.scenes() == Seq::<Scene>::empty(),
            s.children() == Map::<Seq<char>, usize>::empty(),
            s.active_scene() is None,
            s.params() is None,
    {
        Stage {
            children: StringHashMap::new(),
            scenes: Vec::new(),
            active_scene: None,
            params: None,
        }
    }

    /// Adds the scene `c` under the name `key`. A scene that had the name
    /// before no longer has it; if it is on, it stays on.
    pub fn add_scene(&mut self, key: &str, c: Scene)
        requires
            old(self).wf(),
            c.wf(),
        ensures
            final(self).wf(),
            final(self).scenes() == old(self).scenes().push(c),
            final(self).children() == old(self).children().insert(
                key@,
                old(self).scenes().len() as usize,
            ),
            final(self).active_scene() == old(self).active_scene(),
            final(self).params() == old(self).params(),
    {
        let slot = self.scenes.len();
        self.scenes.push(c);
        self.children.insert(key.to_owned(), slot);
        proof {
            assert forall|k: Seq<char>| self.children().contains_key(k) implies (
            #[trigger] self.children()[k]) < self.scenes().len() by {
                if k != key@ {
                    assert(old(self).children().contains_key(k));
                    assert(old(self).children()[k] < old(self).scenes().len());
                }
            }
            assert forall|i: int| 0 <= i < self.scenes().len() implies (
            #[trigger] self.scenes()[i]).wf() by {
                if i < old(self).scenes().len() {
                    assert(old(self).scenes()[i].wf());
                }
            }
        }
    }

    /// Brings on the scene named `key`; see [`Stage::started`].
    pub fn start(&mut self, key: &str, reg: &LoadRegister)
        requires
            old(self).wf(),
        ensures
            final(self).wf(),
            old(self).started(final(self), key@, reg.sizes()),
    {
        let found = match self.children.get(key) {
            Some(i) => Some(*i),
            None => None,
        };
        match found {
            Some(i) => {
                let params = self.params;
                assert(self.children()[key@] == i);
                assert(self.scenes()[i as int].wf());
                self.scenes[i].on_start(params, reg);
                self.active_scene = Some(i);
                proof {
                    assert forall|j: int| 0 <= j < self.scenes().len() implies (
                    #[trigger] self.scenes()[j]).wf() by {
                        if j != i {
                            assert(old(self).scenes()[j].wf());
                        }
                    }
                    assert forall|k: Seq<char>| self.children().contains_key(k) implies (
                    #[trigger] self.children()[k]) < self.scenes().len() by {
                        assert(old(self).children()[k] < old(self).scenes().len());
                    }
                }
            },
            None => {},
        }
    }

    /// Advances the scene that is on by one frame. The other scenes stay
    /// as they are.
    pub fn update(&mut self, frame: Frame, reg: &LoadRegister)
        requires
            old(self).wf(),
        ensures
            final(self).wf(),
            final(self).children() == old(self).children(),
            final(self).active_scene() == old(self).active_scene(),
            final(self).params() == old(self).params(),
            final(self).scenes().len() == old(self).scenes().len(),
            forall|j: int|
                0 <= j < old(self).scenes().len() && !old(self).is_on(j) ==> final(self).scenes()[j] == old(self).scenes()[j],
            old(self).active_scene() is Some ==> old(self).scenes()[old(
                self,
            ).active_scene()->0 as int].updated(
                &final(self).scenes()[old(self).active_scene()->0 as int],
                frame,
                reg.sizes(),
            ),
    {
        match self.active_scene {
            Some(a) => {
                assert(self.scenes()[a as int].wf());
                self.scenes[a].update(frame, reg);
                proof {
                    assert forall|j: int| 0 <= j < self.scenes().len() implies (
                    #[trigger] self.scenes()[j]).wf() by {
                        if j != a {
                            assert(old(self).scenes()[j].wf());
                        }
                    }
                    assert forall|k: Seq<char>| self.children().contains_key(k) implies (
                    #[trigger] self.children()[k]) < self.scenes().len() by {
                        assert(old(self).children()[k] < old(self).scenes().len());
                    }
                }
            },
            None => {},
        }
    }

    /// Sets the parameter for the next scene to come on.
    pub fn set_params(&mut self, p: usize)
        ensures
            final(self).params() == Some(p),
            final(self).scenes() == old(self).scenes(),
            final(self).children() == old(self).children(),
            final(self).active_scene() == old(self).active_scene(),
    {
        self.params = Some(p);
    }

    /// The parameter for the next scene to come on.
    pub fn get_params(&self) -> (p: Option<usize>)
        ensures
            p == self.params(),
    {
        self.params
    }

    /// The scene that is on, if one is.
    pub fn active(&self) -> (s: Option<&Scene>)
        requires
            self.wf(),
        ensures
            s is Some == self.active_scene() is Some,
            s is Some ==> *s->0 == self.scenes()[self.active_scene()->0 as int],
    {
        match self.active_scene {
            Some(a) => Some(&self.scenes[a]),
            None => None,
        }
    }

    /// Hands the raw event `evt` to the scene that is on, and follows the
    /// action that the scene asks for; see [`Stage::handled`]. The stage
    /// itself asks for nothing.
    pub fn handle_events(&mut self, evt: &RawInputEvent, frame: Frame, reg: &LoadRegister) -> (action:
        Option<Action>)
        requires
            old(self).wf(),
        ensures
            final(self).wf(),
            action is None,
            old(self).handled(final(self), *evt, frame, reg.sizes()),
    {
        let asked = match self.active_scene {
            Some(a) => {
                assert(self.scenes()[a as int].wf());
                let asked = self.scenes[a].handle_events(evt, frame, reg);
                proof {
                    assert forall|j: int| 0 <= j < self.scenes().len() implies (
                    #[trigger] self.scenes()[j]).wf() by {
                        if j != a {
                            assert(old(self).scenes()[j].wf());
                        }
                    }
                    assert forall|k: Seq<char>| self.children().contains_key(k) implies (
                    #[trigger] self.children()[k]) < self.scenes().len() by {
                        assert(old(self).children()[k] < old(self).scenes().len());
                    }
                }
                asked
            },
            None => None,
        };
        let ghost mid = self.scenes@;
        match asked {
            Some(Action::ShowPreview(i)) => {
                self.set_params(i);
                self.start(PREVIEW_SCENE, reg);
            },
            Some(Action::ShowGallery) => {
                self.start(GALLERY_SCENE, reg);
            },
            None => {},
        }
        proof {
            if old(self).active_scene() is Some {
                let a = old(self).active_scene()->0 as int;
                let target = old(self).target(asked);
                if target == Some(a as usize) {
                    assert(old(self).scenes()[a].handled(&mid[a], *evt, frame, reg.sizes()));
                }
            }
        }
        None
    }
}

} // verus!
