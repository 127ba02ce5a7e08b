use heatbed_controller::controller::{ControllerAction, ControllerState};
use heatbed_controller::display::{text_line_origins, LINE_SPACING, TEXT_LEFT};
use heatbed_controller::events::HeatbedControllerEvent;
use heatbed_controller::mcp3008::{command_word, decode_reply, encode_command};
use heatbed_controller::thermistor::DividerConfiguration;
use heatbed_controller::wifi::{plan_channels, AccessPoint, ChannelPlan, DEFAULT_AP_CHANNEL};

const ALL_EVENTS: [HeatbedControllerEvent; 4] = [
    HeatbedControllerEvent::IO0,
    HeatbedControllerEvent::SampleTimer,
    HeatbedControllerEvent::DisplayTimer,
    HeatbedControllerEvent::Unknown,
];

#[test]
fn event_ids_are_single_bits() {
    assert_eq!(HeatbedControllerEvent::IO0.event_id(), 1 << 0);
    assert_eq!(HeatbedControllerEvent::SampleTimer.event_id(), 1 << 1);
    assert_eq!(HeatbedControllerEvent::DisplayTimer.event_id(), 1 << 2);
    assert_eq!(HeatbedControllerEvent::Unknown.event_id(), i32::MIN);
    for event in ALL_EVENTS {
        let bits = event.event_id() as u32;
        assert_eq!(bits.count_ones(), 1);
    }
}

#[test]
fn event_ids_are_distinct() {
    for a in ALL_EVENTS {
        for b in ALL_EVENTS {
            assert_eq!(a == b, a.event_id() == b.event_id());
        }
    }
}

#[test]
fn primitive_round_trip() {
    for event in ALL_EVENTS {
        assert_eq!(HeatbedControllerEvent::from_primitive(event.event_id()), event);
    }
}

#[test]
fn unknown_primitives_default_to_unknown() {
    for value in [0, 3, 5, 8, 16, -1, i32::MAX, i32::MIN] {
        assert_eq!(HeatbedControllerEvent::from_primitive(value), HeatbedControllerEvent::Unknown);
    }
}

#[test]
fn posted_events_are_received() {
    for event in ALL_EVENTS {
        let received = HeatbedControllerEvent::from_event_id(event.event_id());
        if event == HeatbedControllerEvent::Unknown {
            assert_eq!(received, None);
        } else {
            assert_eq!(received, Some(event));
        }
    }
}

#[test]
fn unknown_ids_are_not_received() {
    for value in [0, 3, 5, 8, -1, -2, -4, i32::MAX, i32::MIN] {
        assert_eq!(HeatbedControllerEvent::from_event_id(value), None);
    }
}

#[test]
fn receive_agrees_with_conversion() {
    for value in [-3, -1, 0, 1, 2, 3, 4, 5, 8, i32::MIN] {
        match HeatbedControllerEvent::from_event_id(value) {
            Some(event) => assert_eq!(HeatbedControllerEvent::from_primitive(value), event),
            None => assert_eq!(
                HeatbedControllerEvent::from_primitive(value),
                HeatbedControllerEvent::Unknown
            ),
        }
    }
}

#[test]
fn command_words() {
    assert_eq!(command_word(0), 0xC000);
    assert_eq!(command_word(1), 0xC800);
    assert_eq!(command_word(3), 0xD800);
    assert_eq!(command_word(7), 0xF800);
}

#[test]
fn command_word_takes_channel_modulo_eight() {
    for channel in 0..=255u8 {
        assert_eq!(command_word(channel), command_word(channel % 8));
        assert_eq!(command_word(channel), 0xC000 + (channel as u16 % 8) * 0x800);
    }
}

#[test]
fn command_frames() {
    assert_eq!(encode_command(0), [0xC0, 0, 0, 0]);
    assert_eq!(encode_command(5), [0xE8, 0, 0, 0]);
    assert_eq!(encode_command(7), [0xF8, 0, 0, 0]);
    assert_eq!(encode_command(13), [0xE8, 0, 0, 0]);
}

#[test]
fn reply_decoding() {
    assert_eq!(decode_reply(&[0, 0, 0, 0]), 0);
    assert_eq!(decode_reply(&[0x01, 0xFF, 0x80, 0x00]), 1023);
    assert_eq!(decode_reply(&[0xFE, 0x00, 0x7F, 0xFF]), 0);
    assert_eq!(decode_reply(&[0xFF, 0xFF, 0xFF, 0xFF]), 1023);
    assert_eq!(decode_reply(&[0x01, 0x00, 0x00, 0x00]), 512);
    assert_eq!(decode_reply(&[0x00, 0x01, 0x00, 0x00]), 2);
    assert_eq!(decode_reply(&[0x00, 0x00, 0x80, 0x00]), 1);
}

#[test]
fn reply_round_trip() {
    for value in 0..1024u32 {
        for fill in [0u8, 0x55, 0x7F] {
            let frame = [
                fill.wrapping_mul(2) | (value >> 9) as u8,
                (value >> 1) as u8,
                (((value & 1) as u8) << 7) | fill,
                fill,
            ];
            assert_eq!(decode_reply(&frame), value);
        }
    }
}

#[test]
fn button_toggles_power() {
    let mut state = ControllerState::new();
    assert!(!state.power_on);
    let action = state.handle_event(HeatbedControllerEvent::IO0);
    assert!(state.power_on);
    assert_eq!(action, ControllerAction { set_power_output: Some(true), update_display: true });
    let action = state.handle_event(HeatbedControllerEvent::IO0);
    assert!(!state.power_on);
    assert_eq!(action, ControllerAction { set_power_output: Some(false), update_display: true });
}

#[test]
fn timers_do_not_change_power() {
    for power_on in [false, true] {
        let mut state = ControllerState { power_on };
        let action = state.handle_event(HeatbedControllerEvent::DisplayTimer);
        assert_eq!(state.power_on, power_on);
        assert_eq!(action, ControllerAction { set_power_output: None, update_display: true });
        let action = state.handle_event(HeatbedControllerEvent::SampleTimer);
        assert_eq!(state.power_on, power_on);
        assert_eq!(action, ControllerAction { set_power_output: None, update_display: false });
        let action = state.handle_event(HeatbedControllerEvent::Unknown);
        assert_eq!(state.power_on, power_on);
        assert_eq!(action, ControllerAction { set_power_output: None, update_display: false });
    }
}

#[test]
fn power_follows_parity_of_presses() {
    let events = [
        HeatbedControllerEvent::IO0,
        HeatbedControllerEvent::SampleTimer,
        HeatbedControllerEvent::IO0,
        HeatbedControllerEvent::DisplayTimer,
        HeatbedControllerEvent::IO0,
        HeatbedControllerEvent::Unknown,
    ];
    let mut state = ControllerState::new();
    let mut presses = 0;
    for event in events {
        let action = state.handle_event(event);
        if event == HeatbedControllerEvent::IO0 {
            presses += 1;
        }
        assert_eq!(state.power_on, presses % 2 == 1);
        if let Some(level) = action.set_power_output {
            assert_eq!(level, state.power_on);
        }
    }
    assert!(state.power_on);
}

#[test]
fn power_texts() {
    assert_eq!(ControllerState { power_on: true }.power_text(), "Power: On");
    assert_eq!(ControllerState { power_on: false }.power_text(), "Power: Off");
}

#[test]
fn text_layout_of_the_ttgo_screen() {
    assert_eq!(text_line_origins(240), [(10, 115), (10, 139), (10, 163), (10, 187)]);
}

#[test]
fn text_layout_edges() {
    assert_eq!(text_line_origins(10)[0], (TEXT_LEFT, 0));
    assert_eq!(text_line_origins(11)[0], (TEXT_LEFT, 0));
    assert_eq!(text_line_origins(13)[1], (TEXT_LEFT, 1 + LINE_SPACING));
    assert_eq!(text_line_origins(u32::MAX)[0], (TEXT_LEFT, -5));
    assert_eq!(text_line_origins(u32::MAX)[3], (TEXT_LEFT, -5 + 3 * LINE_SPACING));
}

fn ap(ssid: &str, channel: u8) -> AccessPoint {
    AccessPoint { ssid: ssid.to_string(), channel }
}

#[test]
fn channel_of_configured_network() {
    let scan = vec![ap("other", 3), ap("home", 6), ap("home", 11)];
    let plan = plan_channels(&scan, &"home".to_string());
    assert_eq!(plan, ChannelPlan { client: Some(6), access_point: 6 });
}

#[test]
fn default_channel_when_network_missing() {
    let scan = vec![ap("other", 3), ap("homes", 6)];
    let plan = plan_channels(&scan, &"home".to_string());
    assert_eq!(plan, ChannelPlan { client: None, access_point: DEFAULT_AP_CHANNEL });
    assert_eq!(plan.access_point, 1);
    let plan = plan_channels(&Vec::new(), &"home".to_string());
    assert_eq!(plan, ChannelPlan { client: None, access_point: 1 });
}

#[test]
fn divider_configurations() {
    assert!(DividerConfiguration::NtcBottom.measures_ntc_directly());
    assert!(!DividerConfiguration::NtcTop.measures_ntc_directly());
}
