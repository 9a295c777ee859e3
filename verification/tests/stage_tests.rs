use gallery::display::Button;
use gallery::display::Image;
use gallery::gesture::RawInputEvent;
use gallery::loader::LoadRegister;
use gallery::model::Gallery;
use gallery::model::Picture;
use gallery::rect::Rect;
use gallery::stage::Frame;
use gallery::stage::Scene;
use gallery::stage::Stage;
use gallery::view::GalleryView;
use gallery::view::Preview;

fn gallery_of(n: usize) -> Gallery {
    let mut pics = Vec::new();
    for i in 0..n {
        pics.push(Picture { preview: format!("thumb{}", i), url: format!("pic{}", i) });
    }
    Gallery { pics }
}

fn at(now: u64) -> Frame {
    Frame { now, width: 640, height: 500 }
}

fn tap(stage: &mut Stage, x: i32, y: i32, t: u64, reg: &LoadRegister) {
    assert_eq!(stage.handle_events(&RawInputEvent::FingerDown { id: 1, x, y, t }, at(t), reg), None);
    assert_eq!(
        stage.handle_events(&RawInputEvent::FingerUp { id: 1, x, y, t: t + 10 }, at(t + 10), reg),
        None
    );
}

fn viewer(reg: &LoadRegister) -> Stage {
    let mut stage = Stage::new();
    stage.add_scene("gallery", Scene::Gallery(GalleryView::new(&gallery_of(7), 640, 500)));
    stage.add_scene("preview", Scene::Preview(Preview::new(640, 500, gallery_of(7), reg)));
    stage
}

fn shown_index(stage: &Stage) -> Option<usize> {
    match stage.active() {
        Some(Scene::Preview(p)) => Some(p.img_idx()),
        _ => None,
    }
}

#[test]
fn empty_stage_does_nothing() {
    let reg = LoadRegister::new();
    let mut stage = Stage::new();
    assert!(stage.active().is_none());
    assert_eq!(stage.get_params(), None);
    tap(&mut stage, 0, 0, 0, &reg);
    stage.update(at(100), &reg);
    stage.start("gallery", &reg);
    assert!(stage.active().is_none());
}

#[test]
fn start_brings_a_scene_on() {
    let reg = LoadRegister::new();
    let mut stage = viewer(&reg);
    assert!(stage.active().is_none());
    stage.start("gallery", &reg);
    assert!(matches!(stage.active(), Some(Scene::Gallery(_))));
    stage.start("nowhere", &reg);
    assert!(matches!(stage.active(), Some(Scene::Gallery(_))));
}

#[test]
fn tap_on_a_thumbnail_brings_the_carousel_on_at_that_picture() {
    let reg = LoadRegister::new();
    let mut stage = viewer(&reg);
    stage.start("gallery", &reg);
    tap(&mut stage, 300_000, 300_000, 0, &reg);
    assert_eq!(stage.get_params(), Some(6));
    assert_eq!(shown_index(&stage), Some(6));
}

#[test]
fn start_hands_the_parameter_to_the_carousel() {
    let reg = LoadRegister::new();
    let mut stage = viewer(&reg);
    stage.set_params(4);
    stage.start("preview", &reg);
    assert_eq!(shown_index(&stage), Some(4));
    match stage.active() {
        Some(Scene::Preview(p)) => assert_eq!(p.curr().get_content().get_src(), "pic4"),
        _ => panic!("the carousel is not on"),
    }
}

#[test]
fn button_brings_the_gallery_back() {
    let reg = LoadRegister::new();
    let mut stage = viewer(&reg);
    stage.add_scene("back", Scene::Button(Button::new(Rect::new(0, 0, 50, 50))));
    stage.start("back", &reg);
    tap(&mut stage, 50_000, 50_000, 0, &reg);
    assert!(matches!(stage.active(), Some(Scene::Gallery(_))));
}

#[test]
fn update_advances_the_carousel_that_is_on() {
    let reg = LoadRegister::new();
    let mut stage = viewer(&reg);
    stage.set_params(2);
    stage.start("preview", &reg);
    let events = [
        RawInputEvent::FingerDown { id: 1, x: 800_000, y: 500_000, t: 0 },
        RawInputEvent::FingerMotion { id: 1, x: 500_000, y: 500_000, dx: -300_000, dy: 0, t: 10 },
        RawInputEvent::FingerUp { id: 1, x: 500_000, y: 500_000, t: 20 },
    ];
    for (i, e) in events.iter().enumerate() {
        assert_eq!(stage.handle_events(e, at(10 * i as u64), &reg), None);
    }
    assert_eq!(shown_index(&stage), Some(2));
    stage.update(at(320), &reg);
    assert_eq!(shown_index(&stage), Some(3));
}

#[test]
fn replaced_scene_that_is_on_stays_on() {
    let reg = LoadRegister::new();
    let mut stage = viewer(&reg);
    stage.start("gallery", &reg);
    stage.add_scene("gallery", Scene::Image(Image::new("x".to_string())));
    assert!(matches!(stage.active(), Some(Scene::Gallery(_))));
    stage.start("gallery", &reg);
    assert!(matches!(stage.active(), Some(Scene::Image(_))));
}

#[test]
fn scenes_without_input_are_not_interactive() {
    let reg = LoadRegister::new();
    let mut img = Scene::Image(Image::new("x".to_string()));
    assert!(!img.is_interactive());
    assert_eq!(
        img.handle_events(&RawInputEvent::FingerDown { id: 1, x: 0, y: 0, t: 0 }, at(0), &reg),
        None
    );
    img.update(at(10), &reg);
    img.on_start(Some(3), &reg);
    assert!(Scene::Gallery(GalleryView::new(&gallery_of(1), 640, 500)).is_interactive());
    assert!(Scene::Preview(Preview::new(640, 500, gallery_of(1), &reg)).is_interactive());
    assert!(Scene::Button(Button::new(Rect::new(0, 0, 1, 1))).is_interactive());
}
