use communications::audio::{AudioControlPanel, Channel, Transceiver, ADF, COMM, VHF};

#[test]
fn panel_defaults() {
    let acp = AudioControlPanel::new(1);
    assert_eq!(acp.get_transmit_channel_value(), 1);
    assert_eq!(acp.get_int_rad_switch(), 50);
    assert!(!acp.get_voice_button());
    assert!(!acp.is_emitting());
    assert_eq!(acp.get_volume_com1(), 0);
    assert_eq!(acp.get_volume_markers(), 0);
    assert!(!acp.get_receive_com1());
    assert!(acp.get_receive_com2());
    assert!(!acp.get_receive_com3());
    assert!(!acp.get_receive_hf1());
    assert!(!acp.get_receive_ils());
}

#[test]
fn transceiver_knobs() {
    let mut v = VHF::new_vhf2();
    assert!(v.get_receive());
    v.set_volume(80);
    v.set_receive(false);
    assert_eq!(v.get_volume(), 80);
    assert!(!v.get_receive());
    let mut c = COMM::new_short();
    c.set_receive(true);
    assert!(c.get_receive());
    assert_eq!(c.get_volume(), 0);
    let a = ADF::new();
    assert!(!a.get_receive());
}

#[test]
fn read_and_emitting() {
    let mut acp = AudioControlPanel::new(2);
    acp.read(0, true, 3);
    assert!(acp.is_emitting());
    assert!(acp.get_voice_button());
    assert_eq!(acp.get_transmit_channel_value(), 3);
    acp.read(1, false, 3);
    assert!(!acp.is_emitting());
}

#[test]
fn update_transmit_and_misc() {
    let mut first = AudioControlPanel::new(1);
    let mut second = AudioControlPanel::new(2);
    second.read(0, true, 4);
    first.update_transmit(&second);
    assert_eq!(first.get_transmit_channel_value(), 4);
    assert!(!first.get_voice_button());
    first.update_misc(&second);
    assert!(first.get_voice_button());
    assert_eq!(first.get_int_rad_switch(), 0);
}

const ALL: [Channel; 15] = [
    Channel::Vhf1,
    Channel::Vhf2,
    Channel::Vhf3,
    Channel::Hf1,
    Channel::Hf2,
    Channel::Pa,
    Channel::Mech,
    Channel::Att,
    Channel::Adf1,
    Channel::Adf2,
    Channel::Vor1,
    Channel::Vor2,
    Channel::Ils,
    Channel::Gls,
    Channel::Markers,
];

fn volumes(acp: &AudioControlPanel) -> [u8; 15] {
    [
        acp.get_volume_com1(),
        acp.get_volume_com2(),
        acp.get_volume_com3(),
        acp.get_volume_hf1(),
        acp.get_volume_hf2(),
        acp.get_volume_pa(),
        acp.get_volume_mech(),
        acp.get_volume_att(),
        acp.get_volume_adf1(),
        acp.get_volume_adf2(),
        acp.get_volume_vor1(),
        acp.get_volume_vor2(),
        acp.get_volume_ils(),
        acp.get_volume_gls(),
        acp.get_volume_markers(),
    ]
}

fn receives(acp: &AudioControlPanel) -> [bool; 15] {
    [
        acp.get_receive_com1(),
        acp.get_receive_com2(),
        acp.get_receive_com3(),
        acp.get_receive_hf1(),
        acp.get_receive_hf2(),
        acp.get_receive_pa(),
        acp.get_receive_mech(),
        acp.get_receive_att(),
        acp.get_receive_adf1(),
        acp.get_receive_adf2(),
        acp.get_receive_vor1(),
        acp.get_receive_vor2(),
        acp.get_receive_ils(),
        acp.get_receive_gls(),
        acp.get_receive_markers(),
    ]
}

#[test]
fn read_channel_sets_one_knob() {
    let mut acp = AudioControlPanel::new(1);
    acp.read_channel(Channel::Vor2, 42, true);
    let mut expected = [0u8; 15];
    expected[11] = 42;
    assert_eq!(volumes(&acp), expected);
    assert!(acp.get_receive_vor2());
    assert!(!acp.get_receive_vor1());
}

#[test]
fn update_volume_copies_volumes_only() {
    let mut first = AudioControlPanel::new(1);
    for (i, c) in ALL.iter().enumerate() {
        first.read_channel(*c, 10 + i as u8, i % 2 == 0);
    }
    let mut second = AudioControlPanel::new(2);
    let before = receives(&second);
    second.update_volume(&first);
    assert_eq!(volumes(&second), volumes(&first));
    assert_eq!(volumes(&second)[0], 10);
    assert_eq!(volumes(&second)[14], 24);
    assert_eq!(receives(&second), before);
}

#[test]
fn update_receive_copies_selection() {
    let mut first = AudioControlPanel::new(1);
    for c in ALL.iter() {
        first.read_channel(*c, 5, true);
    }
    let mut second = AudioControlPanel::new(2);
    second.update_receive(&first);
    assert_eq!(receives(&second), [true; 15]);
    assert_eq!(volumes(&second), [0; 15]);
}

#[test]
fn voice_button_mutes_navigation_channels() {
    let mut first = AudioControlPanel::new(1);
    for c in ALL.iter() {
        first.read_channel(*c, 5, true);
    }
    first.read(50, true, 1);
    let heard = receives(&first);
    assert_eq!(&heard[..8], &[true; 8]);
    assert_eq!(&heard[8..], &[false; 7]);
    let mut second = AudioControlPanel::new(2);
    second.update_receive(&first);
    // the second panel's voice button is up, but the channels came over muted
    assert_eq!(receives(&second), heard);
}
