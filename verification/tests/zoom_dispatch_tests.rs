use pake::dispatch::{menu_event_handle, MenuAction};
use pake::os::Os;
use pake::zoom::{
    set_zoom, set_zoom_in, set_zoom_out, zoom_reset, SurfaceCommand, ZOOM_IN_HUNDREDTHS,
    ZOOM_OUT_HUNDREDTHS, ZOOM_RESET_HUNDREDTHS,
};

#[test]
fn zoom_factor_mapping_is_fixed() {
    assert_eq!(ZOOM_IN_HUNDREDTHS, 75);
    assert_eq!(ZOOM_OUT_HUNDREDTHS, 125);
    assert_eq!(ZOOM_RESET_HUNDREDTHS, 100);
    assert_eq!(f64::from(ZOOM_IN_HUNDREDTHS) / 100.0, 0.75);
    assert_eq!(f64::from(ZOOM_OUT_HUNDREDTHS) / 100.0, 1.25);
    assert_eq!(f64::from(ZOOM_RESET_HUNDREDTHS) / 100.0, 1.0);
}

#[test]
fn menu_zoom_in_applies_factor_75_on_every_os() {
    for os in [Os::MacOs, Os::Linux, Os::Windows] {
        let action = menu_event_handle("zoom_in");
        let factor = match action {
            MenuAction::Zoom { factor_hundredths } => factor_hundredths,
            _ => panic!("zoom_in must map to a zoom action"),
        };
        assert_eq!(factor, 75);
        let cmds = set_zoom(os, factor);
        match os {
            Os::Linux => assert_eq!(
                cmds,
                vec![SurfaceCommand::SetZoomLevel { factor_hundredths: 75 }]
            ),
            Os::Windows => assert_eq!(
                cmds,
                vec![SurfaceCommand::SetZoomFactor { factor_hundredths: 75 }]
            ),
            Os::MacOs => assert_eq!(cmds[0], SurfaceCommand::SetPageZoom { factor_hundredths: 75 }),
        }
    }
}

#[test]
fn menu_dispatch_table_is_exact() {
    assert_eq!(menu_event_handle("hide"), MenuAction::Hide);
    assert_eq!(menu_event_handle("close"), MenuAction::Close);
    assert_eq!(menu_event_handle("quit"), MenuAction::Exit { code: 0 });
    assert_eq!(
        menu_event_handle("zoom_out"),
        MenuAction::Zoom { factor_hundredths: 125 }
    );
    assert_eq!(
        menu_event_handle("zoom_in"),
        MenuAction::Zoom { factor_hundredths: 75 }
    );
    assert_eq!(
        menu_event_handle("reset"),
        MenuAction::Zoom { factor_hundredths: 100 }
    );
    assert_eq!(menu_event_handle("refresh"), MenuAction::Noop);
    assert_eq!(menu_event_handle(""), MenuAction::Noop);
}

#[test]
fn linux_zoom_sets_level_directly() {
    let cmds = set_zoom(Os::Linux, 150);
    assert_eq!(
        cmds,
        vec![SurfaceCommand::SetZoomLevel { factor_hundredths: 150 }]
    );
}

#[test]
fn windows_zoom_calls_controller_setter() {
    let cmds = set_zoom(Os::Windows, 150);
    assert_eq!(
        cmds,
        vec![SurfaceCommand::SetZoomFactor { factor_hundredths: 150 }]
    );
}

#[test]
fn macos_zoom_keeps_its_coupled_side_effects() {
    let cmds = set_zoom(Os::MacOs, 150);
    assert_eq!(
        cmds,
        vec![
            SurfaceCommand::SetPageZoom { factor_hundredths: 150 },
            SurfaceCommand::RemoveAllUserScripts,
            SurfaceCommand::SetBackgroundColor {
                red_hundredths: 50,
                green_hundredths: 20,
                blue_hundredths: 40,
                alpha_hundredths: 100,
            },
        ]
    );
}

#[test]
fn zoom_shortcuts_use_their_fixed_factors() {
    assert_eq!(
        set_zoom_in(Os::Linux),
        vec![SurfaceCommand::SetZoomLevel { factor_hundredths: 75 }]
    );
    assert_eq!(
        set_zoom_out(Os::Linux),
        vec![SurfaceCommand::SetZoomLevel { factor_hundredths: 125 }]
    );
    assert_eq!(
        zoom_reset(Os::Linux),
        vec![SurfaceCommand::SetZoomLevel { factor_hundredths: 100 }]
    );
}
