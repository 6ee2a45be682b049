use graph::util::{ImguiBuilder, ImguiSettings};
use std::path::PathBuf;

type Builder = ImguiBuilder<u32, &'static str>;

fn given(settings: &ImguiSettings<u32, &'static str>) -> [bool; 6] {
    [
        settings.fonts.is_some(),
        settings.clipboard.is_some(),
        settings.ini_file.is_some(),
        settings.log_file.is_some(),
        settings.platform_name.is_some(),
        settings.renderer_name.is_some(),
    ]
}

#[test]
fn new_builder_has_no_settings() {
    let settings = Builder::new().build();
    assert_eq!(given(&settings), [false; 6]);
    let settings = Builder::default().build();
    assert_eq!(given(&settings), [false; 6]);
}

#[test]
fn each_setting_is_handed_out_as_given() {
    let settings = Builder::new()
        .font_atlas(7)
        .clipboard_backend("clip")
        .ini(PathBuf::from("layout.ini"))
        .log(PathBuf::from("ui.log"))
        .platform("imgui_impl_sdl3".to_string())
        .renderer("imgui_impl_opengl3".to_string())
        .build();
    assert_eq!(settings.fonts, Some(7));
    assert_eq!(settings.clipboard, Some("clip"));
    assert_eq!(settings.ini_file, Some(PathBuf::from("layout.ini")));
    assert_eq!(settings.log_file, Some(PathBuf::from("ui.log")));
    assert_eq!(settings.platform_name.as_deref(), Some("imgui_impl_sdl3"));
    assert_eq!(settings.renderer_name.as_deref(), Some("imgui_impl_opengl3"));
}

#[test]
fn a_setting_touches_no_other() {
    let settings = Builder::new().platform("p".to_string()).build();
    assert_eq!(given(&settings), [false, false, false, false, true, false]);
    let settings = Builder::new().ini(PathBuf::from("a.ini")).build();
    assert_eq!(given(&settings), [false, false, true, false, false, false]);
    let settings = Builder::new().log(PathBuf::from("a.log")).build();
    assert_eq!(given(&settings), [false, false, false, true, false, false]);
    let settings = Builder::new().renderer("r".to_string()).build();
    assert_eq!(given(&settings), [false, false, false, false, false, true]);
    let settings = Builder::new().font_atlas(1).build();
    assert_eq!(given(&settings), [true, false, false, false, false, false]);
    let settings = Builder::new().clipboard_backend("c").build();
    assert_eq!(given(&settings), [false, true, false, false, false, false]);
}

#[test]
fn a_setting_given_twice_keeps_the_last() {
    let settings = Builder::new()
        .platform("first".to_string())
        .platform("second".to_string())
        .font_atlas(1)
        .font_atlas(2)
        .build();
    assert_eq!(settings.platform_name.as_deref(), Some("second"));
    assert_eq!(settings.fonts, Some(2));
}
