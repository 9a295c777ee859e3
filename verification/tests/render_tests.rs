use gallery::display::FillMode;
use gallery::display::Image;
use gallery::loader::loaded;
use gallery::loader::LoadRegister;
use gallery::rect::Rect;

#[test]
fn contained_image_is_centred_with_margins() {
    let mut reg = LoadRegister::new();
    loaded(&mut reg, "a", Some((1000, 500)));
    let img = Image::new("a".to_string());
    let frame = Rect::new(10, 20, 640, 500);
    let plan = img.render_plan(&reg, frame).unwrap();
    assert_eq!(plan.key, "a");
    assert_eq!(plan.source, Rect::new(0, 0, 1000, 500));
    assert_eq!(plan.target, Rect::new(10, 110, 640, 320));
    assert_eq!(plan.clip, frame);
}

#[test]
fn covering_image_is_centred_and_overlaps() {
    let mut reg = LoadRegister::new();
    loaded(&mut reg, "a", Some((1000, 500)));
    let mut img = Image::new("a".to_string());
    img.set_fill(FillMode::Cover);
    let plan = img.render_plan(&reg, Rect::new(0, 0, 640, 500)).unwrap();
    assert_eq!(plan.target, Rect::new(-180, 0, 1000, 500));
}

#[test]
fn odd_margins_round_toward_zero() {
    let mut reg = LoadRegister::new();
    loaded(&mut reg, "a", Some((1, 1)));
    let mut img = Image::new("a".to_string());
    let plan = img.render_plan(&reg, Rect::new(0, 0, 4, 7)).unwrap();
    assert_eq!(plan.target, Rect::new(0, 1, 4, 4));
    img.set_fill(FillMode::Cover);
    let plan = img.render_plan(&reg, Rect::new(0, 0, 4, 7)).unwrap();
    assert_eq!(plan.target, Rect::new(-1, 0, 7, 7));
}

#[test]
fn image_without_source_is_not_drawn() {
    let mut reg = LoadRegister::new();
    loaded(&mut reg, "", Some((1, 1)));
    loaded(&mut reg, "!local:../assets/iconmonstr-picture-1-240.png", Some((240, 240)));
    let img = Image::default();
    assert_eq!(img.render_plan(&reg, Rect::new(0, 0, 10, 10)), None);
}

#[test]
fn image_that_is_not_loaded_shows_the_placeholder() {
    let mut reg = LoadRegister::new();
    let img = Image::new("missing".to_string());
    assert_eq!(img.render_plan(&reg, Rect::new(0, 0, 100, 50)), None);
    loaded(&mut reg, "!local:../assets/iconmonstr-picture-1-240.png", Some((240, 240)));
    let plan = img.render_plan(&reg, Rect::new(0, 0, 100, 50)).unwrap();
    assert_eq!(plan.key, "!local:../assets/iconmonstr-picture-1-240.png");
    assert_eq!(plan.source, Rect::new(0, 0, 240, 240));
    assert_eq!(plan.target, Rect::new(25, 0, 50, 50));
}

#[test]
fn local_image_is_drawn_from_its_prefixed_key() {
    let mut reg = LoadRegister::new();
    let (img, _) = Image::new_with_dimension_local("pic.png".to_string(), 10, 10, &reg);
    loaded(&mut reg, "pic.png", Some((8, 8)));
    assert_eq!(img.render_plan(&reg, Rect::new(0, 0, 10, 10)), None);
    loaded(&mut reg, "!local:pic.png", Some((20, 10)));
    let plan = img.render_plan(&reg, Rect::new(0, 0, 10, 10)).unwrap();
    assert_eq!(plan.key, "!local:pic.png");
    assert_eq!(plan.target, Rect::new(0, 2, 10, 5));
}
