use gallery::fit::rescale;
use gallery::display::FillMode;
use gallery::display::Image;
use gallery::loader::loaded;
use gallery::loader::LoadRegister;
use gallery::loader::LoadRequest;

#[test]
fn contain_size_fits_a_wide_image_by_width() {
    assert_eq!(Image::contain_size(1000, 500, 640, 500), (640, 320));
}

#[test]
fn contain_size_fits_a_tall_image_by_height() {
    assert_eq!(Image::contain_size(500, 1000, 640, 500), (250, 500));
}

#[test]
fn cover_size_covers_by_the_other_side() {
    assert_eq!(Image::cover_size(1000, 500, 640, 500), (1000, 500));
    assert_eq!(Image::cover_size(500, 1000, 640, 500), (640, 1280));
}

#[test]
fn same_aspect_ratio_fills_the_frame_either_way() {
    assert_eq!(Image::contain_size(1280, 1000, 640, 500), (640, 500));
    assert_eq!(Image::cover_size(1280, 1000, 640, 500), (640, 500));
}

#[test]
fn sizes_round_down() {
    assert_eq!(Image::contain_size(3, 1, 10, 10), (10, 3));
    assert_eq!(Image::cover_size(1, 3, 10, 10), (10, 30));
    assert_eq!(Image::cover_size(7, 3, 10, 10), (23, 10));
}

#[test]
fn degenerate_sizes_are_total() {
    assert_eq!(Image::contain_size(0, 0, 640, 500), (0, 500));
    assert_eq!(Image::contain_size(100, 0, 640, 500), (640, 0));
    assert_eq!(Image::contain_size(0, 100, 640, 500), (0, 500));
    assert_eq!(Image::contain_size(100, 100, 0, 0), (0, 0));
    assert_eq!(Image::cover_size(100, 0, 640, 500), (u32::MAX, 500));
    assert_eq!(Image::cover_size(0, 100, 640, 500), (640, u32::MAX));
    assert_eq!(Image::cover_size(0, 0, 640, 500), (640, 0));
}

#[test]
fn huge_sizes_saturate() {
    assert_eq!(Image::cover_size(u32::MAX, 1, 10, u32::MAX), (u32::MAX, u32::MAX));
    assert_eq!(rescale(u32::MAX, u32::MAX, 1), u32::MAX);
    assert_eq!(rescale(u32::MAX, u32::MAX, u32::MAX), u32::MAX);
    assert_eq!(rescale(10, 3, 4), 7);
    assert_eq!(rescale(0, 5, 0), 0);
    assert_eq!(rescale(1, 1, 0), u32::MAX);
}

#[test]
fn contain_never_exceeds_the_frame() {
    let dims = [0u32, 1, 2, 3, 7, 100, 641, 65_535, u32::MAX];
    for &iw in dims.iter() {
        for &ih in dims.iter() {
            for &w in dims.iter() {
                for &h in dims.iter() {
                    let (cw, ch) = Image::contain_size(iw, ih, w, h);
                    assert!(cw <= w && ch <= h);
                    assert!(cw == w || ch == h);
                    if iw > 0 && ih > 0 {
                        let (vw, vh) = Image::cover_size(iw, ih, w, h);
                        assert!(vw >= w && vh >= h);
                    }
                }
            }
        }
    }
}

#[test]
fn new_image_is_remote_and_contained() {
    let mut img = Image::new("http://example.org/a.png".to_string());
    assert_eq!(img.get_src(), "http://example.org/a.png");
    let mut reg = LoadRegister::new();
    assert!(!img.is_loaded(&reg));
    assert_eq!(img.get_img_size(&reg), None);
    loaded(&mut reg, "http://example.org/a.png", Some((800, 600)));
    assert!(img.is_loaded(&reg));
    assert_eq!(img.get_img_size(&reg), Some((800, 600)));
    img.set_fill(FillMode::Cover);
    assert_eq!(img.get_src(), "http://example.org/a.png");
}

#[test]
fn default_image_has_no_source() {
    let img = Image::default();
    assert_eq!(img.get_src(), "");
    let mut reg = LoadRegister::new();
    assert_eq!(img.load(&mut reg), vec![]);
    assert!(!reg.is_loading(""));
}

#[test]
fn remote_image_load_asks_for_placeholder_then_fetch() {
    let img = Image::new_with_dimension("http://example.org/a.png".to_string(), 100, 100);
    let mut reg = LoadRegister::new();
    let reqs = img.load(&mut reg);
    assert_eq!(
        reqs,
        vec![
            LoadRequest::Decode {
                key: "!local:../assets/iconmonstr-picture-1-240.png".to_string(),
                file: "../assets/iconmonstr-picture-1-240.png".to_string(),
            },
            LoadRequest::Fetch { src: "http://example.org/a.png".to_string() },
        ]
    );
    assert!(reg.is_loading("http://example.org/a.png"));
    // a second load asks for nothing: the placeholder was asked for, the fetch is in flight
    assert_eq!(img.load(&mut reg), vec![]);
}

#[test]
fn local_image_is_loaded_from_the_outset_and_asks_to_be_decoded() {
    let reg = LoadRegister::new();
    let (img, req) = Image::new_with_dimension_local("pic.png".to_string(), 10, 20, &reg);
    assert!(img.is_loaded(&reg));
    assert_eq!(
        req,
        Some(LoadRequest::Decode { key: "!local:pic.png".to_string(), file: "pic.png".to_string() })
    );
    let (none, no_req) = Image::new_with_dimension_local(String::new(), 10, 20, &reg);
    assert_eq!(none.get_src(), "");
    assert_eq!(no_req, None);
}

#[test]
fn set_src_loads_local_images_at_once() {
    let mut reg = LoadRegister::new();
    let (mut img, _) = Image::new_with_dimension_local(String::new(), 10, 20, &reg);
    let reqs = img.set_src("b.png", &mut reg);
    assert_eq!(img.get_src(), "b.png");
    assert_eq!(reqs.len(), 2);
    assert_eq!(
        reqs[1],
        LoadRequest::Decode { key: "!local:b.png".to_string(), file: "b.png".to_string() }
    );
    loaded(&mut reg, "!local:b.png", Some((4, 4)));
    assert_eq!(img.set_src("b.png", &mut reg), vec![]);
    let mut remote = Image::new(String::new());
    assert_eq!(remote.set_src("http://example.org/c.png", &mut reg), vec![]);
    assert_eq!(remote.get_src(), "http://example.org/c.png");
    assert!(!reg.is_loading("http://example.org/c.png"));
}
