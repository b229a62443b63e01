use egui_baseview::output::LogicalSize;
use egui_baseview::rational::Rat;
use egui_baseview::settings::{OpenSettings, Settings, WindowOpenOptions, WindowScalePolicy};

#[test]
fn open_settings_copy_the_window_options() {
    let settings = Settings {
        window: WindowOpenOptions {
            title: String::from("demo"),
            size: LogicalSize { width: Rat { num: 640, den: 1 }, height: Rat { num: 480, den: 1 } },
            scale: WindowScalePolicy::ScaleFactor(Rat { num: 2, den: 1 }),
        },
    };
    let open = OpenSettings::new(&settings.window);
    assert_eq!(open.title, "demo");
    assert_eq!(open.logical_width, Rat { num: 640, den: 1 });
    assert_eq!(open.logical_height, Rat { num: 480, den: 1 });
    assert_eq!(open.scale_policy, WindowScalePolicy::ScaleFactor(Rat { num: 2, den: 1 }));
}

#[test]
fn system_scale_policy_is_kept() {
    let window = WindowOpenOptions {
        title: String::new(),
        size: LogicalSize { width: Rat { num: 1, den: 1 }, height: Rat { num: 1, den: 1 } },
        scale: WindowScalePolicy::SystemScaleFactor,
    };
    let open = OpenSettings::new(&window);
    assert_eq!(open.scale_policy, WindowScalePolicy::SystemScaleFactor);
}
