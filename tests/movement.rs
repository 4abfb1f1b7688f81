use game_engine::movement::{ModeFlags, MovementMode, RotationSource, SpeedLimit};

fn flags(control: bool, boost: bool, alt: bool) -> ModeFlags {
    ModeFlags { control, boost, alt }
}

#[test]
fn normal_mode_when_no_flag_is_held() {
    let f = ModeFlags::new();
    assert_eq!(f.current_mode(), MovementMode::Normal);
    assert_eq!(f.current_mode().top_speed(), SpeedLimit::Limited(400));
    assert!(f.thrusters_enabled());
    assert!(f.main_engine_enabled());
    assert!(f.resistance_enabled());
    assert_eq!(f.current_mode().rotation_source(), RotationSource::InputDirection);
}

#[test]
fn control_mode_uses_thrusters_only() {
    let f = flags(true, false, false);
    assert_eq!(f.current_mode(), MovementMode::Control);
    assert_eq!(f.current_mode().top_speed(), SpeedLimit::Limited(200));
    assert!(f.thrusters_enabled());
    assert!(!f.main_engine_enabled());
    assert!(f.resistance_enabled());
    assert_eq!(f.current_mode().rotation_source(), RotationSource::MouseAim);
}

#[test]
fn boost_mode_uses_main_engine_only() {
    let f = flags(false, true, false);
    assert_eq!(f.current_mode(), MovementMode::Boost);
    assert_eq!(f.current_mode().top_speed(), SpeedLimit::Limited(1200));
    assert!(!f.thrusters_enabled());
    assert!(f.main_engine_enabled());
    assert!(f.resistance_enabled());
    assert!(f.boost_engine_selected());
}

#[test]
fn alt_mode_has_no_resistance_and_no_speed_limit() {
    let f = flags(false, false, true);
    assert_eq!(f.current_mode(), MovementMode::Alt);
    assert_eq!(f.current_mode().top_speed(), SpeedLimit::Unlimited);
    assert!(f.thrusters_enabled());
    assert!(f.main_engine_enabled());
    assert!(!f.resistance_enabled());
    assert!(!f.boost_engine_selected());
}

#[test]
fn control_with_boost_disables_the_ship() {
    let f = flags(true, true, false);
    assert_eq!(f.current_mode(), MovementMode::Disabled);
    assert_eq!(f.current_mode().top_speed(), SpeedLimit::Limited(0));
    assert!(!f.thrusters_enabled());
    assert!(!f.main_engine_enabled());
    assert_eq!(f.current_mode().rotation_source(), RotationSource::Hold);
    // Control with boost wins over alt.
    assert_eq!(flags(true, true, true).current_mode(), MovementMode::Disabled);
}

#[test]
fn alt_with_boost_keeps_engine_and_drops_thrusters() {
    let f = flags(false, true, true);
    assert_eq!(f.current_mode(), MovementMode::Alt);
    assert!(!f.thrusters_enabled());
    assert!(f.main_engine_enabled());
    assert!(f.boost_engine_selected());
    assert!(!f.resistance_enabled());
}

#[test]
fn alt_with_control_keeps_thrusters_and_drops_engine() {
    let f = flags(true, false, true);
    assert_eq!(f.current_mode(), MovementMode::Alt);
    assert!(f.thrusters_enabled());
    assert!(!f.main_engine_enabled());
    assert!(!f.resistance_enabled());
}

#[test]
fn resistance_needs_a_finite_nonzero_limit() {
    assert!(SpeedLimit::Limited(400).allows_resistance());
    assert!(!SpeedLimit::Limited(0).allows_resistance());
    assert!(!SpeedLimit::Unlimited.allows_resistance());
}
