use vstd::prelude::*;

verus! {

/// Position of a volume knob and of its reception switch.
pub ghost struct KnobState {
    pub volume: u8,
    pub receive: bool,
}

/// A radio channel on the audio control panel: a volume knob that also
/// selects the channel for reception when pushed down.
pub trait Transceiver: View<V = KnobState> {
    /// The knob's volume.
    fn get_volume(&self) -> (r: u8)
        ensures
            r == self@.volume,
    ;

    /// Whether the channel is selected for reception.
    fn get_receive(&self) -> (r: bool)
        ensures
            r == self@.receive,
    ;

    /// Sets the knob's volume.
    fn set_volume(&mut self, volume: u8)
        ensures
            final(self)@ == (KnobState { volume, ..old(self)@ }),
    ;

    /// Selects or deselects the channel for reception.
    fn set_receive(&mut self, receive: bool)
        ensures
            final(self)@ == (KnobState { receive, ..old(self)@ }),
    ;
}

/// Volume knob and reception switch of a VHF radio.
#[derive(Clone, Copy)]
pub struct VHF {
    volume: u8,
    knob: bool,
}

impl View for VHF {
    type V = KnobState;

    closed spec fn view(&self) -> KnobState {
        KnobState { volume: self.volume, receive: self.knob }
    }
}

impl VHF {
    /// The knob of VHF 1: volume zero, reception off.
    pub fn new_vhf1() -> (r: Self)
        ensures
            r@ == (KnobState { volume: 0, receive: false }),
    {
        VHF { volume: 0, knob: false }
    }

    /// The knob of VHF 2, selected for reception: volume zero, reception on.
    pub fn new_vhf2() -> (r: Self)
        ensures
            r@ == (KnobState { volume: 0, receive: true }),
    {
        VHF { volume: 0, knob: true }
    }

    /// The knob of VHF 3: volume zero, reception off.
    pub fn new_vhf3() -> (r: Self)
        ensures
            r@ == (KnobState { volume: 0, receive: false }),
    {
        VHF { volume: 0, knob: false }
    }
}

impl Transceiver for VHF {
    fn get_volume(&self) -> (r: u8) {
        self.volume
    }

    fn get_receive(&self) -> (r: bool) {
        self.knob
    }

    fn set_volume(&mut self, volume: u8) {
        self.volume = volume;
    }

    fn set_receive(&mut self, receive: bool) {
        self.knob = receive;
    }
}

/// Volume knob and reception switch of an HF radio or cabin channel (PA, mechanic, attendant).
#[derive(Clone, Copy)]
pub struct COMM {
    volume: u8,
    knob: bool,
}

impl View for COMM {
    type V = KnobState;

    closed spec fn view(&self) -> KnobState {
        KnobState { volume: self.volume, receive: self.knob }
    }
}

impl COMM {
    /// The knob of a numbered channel (HF 1, HF 2): volume zero, reception off.
    pub fn new_long() -> (r: Self)
        ensures
            r@ == (KnobState { volume: 0, receive: false }),
    {
        COMM { volume: 0, knob: false }
    }

    /// The knob of an unnumbered channel (PA, mechanic, attendant): volume zero, reception off.
    pub fn new_short() -> (r: Self)
        ensures
            r@ == (KnobState { volume: 0, receive: false }),
    {
        COMM { volume: 0, knob: false }
    }
}

impl Transceiver for COMM {
    fn get_volume(&self) -> (r: u8) {
        self.volume
    }

    fn get_receive(&self) -> (r: bool) {
        self.knob
    }

    fn set_volume(&mut self, volume: u8) {
        self.volume = volume;
    }

    fn set_receive(&mut self, receive: bool) {
        self.knob = receive;
    }
}

/// Volume knob and reception switch of an ADF receiver.
#[derive(Clone, Copy)]
pub struct ADF {
    volume: u8,
    knob: bool,
}

impl View for ADF {
    type V = KnobState;

    closed spec fn view(&self) -> KnobState {
        KnobState { volume: self.volume, receive: self.knob }
    }
}

impl ADF {
    /// The knob of an ADF receiver: volume zero, reception off.
    pub fn new() -> (r: Self)
        ensures
            r@ == (KnobState { volume: 0, receive: false }),
    {
        ADF { volume: 0, knob: false }
    }
}

impl Transceiver for ADF {
    fn get_volume(&self) -> (r: u8) {
        self.volume
    }

    fn get_receive(&self) -> (r: bool) {
        self.knob
    }

    fn set_volume(&mut self, volume: u8) {
        self.volume = volume;
    }

    fn set_receive(&mut self, receive: bool) {
        self.knob = receive;
    }
}

/// Volume knob and reception switch of a VOR receiver.
#[derive(Clone, Copy)]
pub struct VOR {
    volume: u8,
    knob: bool,
}

impl View for VOR {
    type V = KnobState;

    closed spec fn view(&self) -> KnobState {
        KnobState { volume: self.volume, receive: self.knob }
    }
}

impl VOR {
    /// The knob of a VOR receiver: volume zero, reception off.
    pub fn new() -> (r: Self)
        ensures
            r@ == (KnobState { volume: 0, receive: false }),
    {
        VOR { volume: 0, knob: false }
    }
}

impl Transceiver for VOR {
    fn get_volume(&self) -> (r: u8) {
        self.volume
    }

    fn get_receive(&self) -> (r: bool) {
        self.knob
    }

    fn set_volume(&mut self, volume: u8) {
        self.volume = volume;
    }

    fn set_receive(&mut self, receive: bool) {
        self.knob = receive;
    }
}

/// Volume knob and reception switch of the ILS receiver.
#[derive(Clone, Copy)]
pub struct ILS {
    volume: u8,
    knob: bool,
}

impl View for ILS {
    type V = KnobState;

    closed spec fn view(&self) -> KnobState {
        KnobState { volume: self.volume, receive: self.knob }
    }
}

impl ILS {
    /// The knob of the ILS receiver: volume zero, reception off.
    pub fn new() -> (r: Self)
        ensures
            r@ == (KnobState { volume: 0, receive: false }),
    {
        ILS { volume: 0, knob: false }
    }
}

impl Transceiver for ILS {
    fn get_volume(&self) -> (r: u8) {
        self.volume
    }

    fn get_receive(&self) -> (r: bool) {
        self.knob
    }

    fn set_volume(&mut self, volume: u8) {
        self.volume = volume;
    }

    fn set_receive(&mut self, receive: bool) {
        self.knob = receive;
    }
}

/// Volume knob and reception switch of the GLS receiver.
#[derive(Clone, Copy)]
pub struct GLS {
    volume: u8,
    knob: bool,
}

impl View for GLS {
    type V = KnobState;

    closed spec fn view(&self) -> KnobState {
        KnobState { volume: self.volume, receive: self.knob }
    }
}

impl GLS {
    /// The knob of the GLS receiver: volume zero, reception off.
    pub fn new() -> (r: Self)
        ensures
            r@ == (KnobState { volume: 0, receive: false }),
    {
        GLS { volume: 0, knob: false }
    }
}

impl Transceiver for GLS {
    fn get_volume(&self) -> (r: u8) {
        self.volume
    }

    fn get_receive(&self) -> (r: bool) {
        self.knob
    }

    fn set_volume(&mut self, volume: u8) {
        self.volume = volume;
    }

    fn set_receive(&mut self, receive: bool) {
        self.knob = receive;
    }
}

/// Volume knob and reception switch of the marker beacon receiver.
#[derive(Clone, Copy)]
pub struct MARKERS {
    volume: u8,
    knob: bool,
}

impl View for MARKERS {
    type V = KnobState;

    closed spec fn view(&self) -> KnobState {
        KnobState { volume: self.volume, receive: self.knob }
    }
}

impl MARKERS {
    /// The knob of the marker beacon receiver: volume zero, reception off.
    pub fn new() -> (r: Self)
        ensures
            r@ == (KnobState { volume: 0, receive: false }),
    {
        MARKERS { volume: 0, knob: false }
    }
}

impl Transceiver for MARKERS {
    fn get_volume(&self) -> (r: u8) {
        self.volume
    }

    fn get_receive(&self) -> (r: bool) {
        self.knob
    }

    fn set_volume(&mut self, volume: u8) {
        self.volume = volume;
    }

    fn set_receive(&mut self, receive: bool) {
        self.knob = receive;
    }
}

/// The knob states of a group of channels.
pub open spec fn knobs<T: View<V = KnobState>>(s: Seq<T>) -> Seq<KnobState> {
    s.map_values(|t: T| t@)
}

/// `ks` with the volumes of `os`.
pub open spec fn copy_volumes(ks: Seq<KnobState>, os: Seq<KnobState>) -> Seq<KnobState> {
    Seq::new(ks.len(), |i: int| KnobState { volume: os[i].volume, ..ks[i] })
}

/// `ks` with the reception of `os`, switched off where `muted`.
pub open spec fn copy_receives(ks: Seq<KnobState>, os: Seq<KnobState>, muted: bool) -> Seq<
    KnobState,
> {
    Seq::new(ks.len(), |i: int| KnobState { receive: os[i].receive && !muted, ..ks[i] })
}

/// A channel of the audio control panel.
#[derive(Clone, Copy, Debug, PartialEq, Eq, Structural)]
pub enum Channel {
    /// VHF 1.
    Vhf1,
    /// VHF 2.
    Vhf2,
    /// VHF 3.
    Vhf3,
    /// HF 1.
    Hf1,
    /// HF 2.
    Hf2,
    /// The PA.
    Pa,
    /// The mechanic channel.
    Mech,
    /// The attendant channel.
    Att,
    /// ADF 1.
    Adf1,
    /// ADF 2.
    Adf2,
    /// VOR 1.
    Vor1,
    /// VOR 2.
    Vor2,
    /// The ILS.
    Ils,
    /// The GLS.
    Gls,
    /// The marker beacons.
    Markers,
}

/// The abstract state of an audio control panel.
pub ghost struct AcpState {
    pub id: usize,
    pub voice_button: bool,
    pub transmit_channel: u8,
    pub int_rad_switch: u8,
    /// VHF 1 to 3.
    pub vhfs: Seq<KnobState>,
    /// HF 1, HF 2, PA, mechanic, attendant.
    pub comms: Seq<KnobState>,
    /// ADF 1 and 2.
    pub adfs: Seq<KnobState>,
    /// VOR 1 and 2.
    pub vors: Seq<KnobState>,
    pub ils: KnobState,
    pub gls: KnobState,
    pub markers: KnobState,
}

/// `s` with the knob of `channel` at `k`.
pub open spec fn with_knob(s: AcpState, channel: Channel, k: KnobState) -> AcpState {
    match channel {
        Channel::Vhf1 => AcpState { vhfs: s.vhfs.update(0, k), ..s },
        Channel::Vhf2 => AcpState { vhfs: s.vhfs.update(1, k), ..s },
        Channel::Vhf3 => AcpState { vhfs: s.vhfs.update(2, k), ..s },
        Channel::Hf1 => AcpState { comms: s.comms.update(0, k), ..s },
        Channel::Hf2 => AcpState { comms: s.comms.update(1, k), ..s },
        Channel::Pa => AcpState { comms: s.comms.update(2, k), ..s },
        Channel::Mech => AcpState { comms: s.comms.update(3, k), ..s },
        Channel::Att => AcpState { comms: s.comms.update(4, k), ..s },
        Channel::Adf1 => AcpState { adfs: s.adfs.update(0, k), ..s },
        Channel::Adf2 => AcpState { adfs: s.adfs.update(1, k), ..s },
        Channel::Vor1 => AcpState { vors: s.vors.update(0, k), ..s },
        Channel::Vor2 => AcpState { vors: s.vors.update(1, k), ..s },
        Channel::Ils => AcpState { ils: k, ..s },
        Channel::Gls => AcpState { gls: k, ..s },
        Channel::Markers => AcpState { markers: k, ..s },
    }
}

/// An audio control panel: the transmit channel selector, the voice button,
/// the interphone/radio switch and a volume knob for each channel.
#[derive(Clone, Copy)]
pub struct AudioControlPanel {
    id: usize,
    voice_button: bool,
    transmit_channel: u8,
    int_rad_switch: u8,
    vhfs: [VHF; 3],
    comms: [COMM; 5],
    adfs: [ADF; 2],
    vors: [VOR; 2],
    ils: ILS,
    gls: GLS,
    markers: MARKERS,
}

impl View for AudioControlPanel {
    type V = AcpState;

    closed spec fn view(&self) -> AcpState {
        AcpState {
            id: self.id,
            voice_button: self.voice_button,
            transmit_channel: self.transmit_channel,
            int_rad_switch: self.int_rad_switch,
            vhfs: knobs(self.vhfs@),
            comms: knobs(self.comms@),
            adfs: knobs(self.adfs@),
            vors: knobs(self.vors@),
            ils: self.ils@,
            gls: self.gls@,
            markers: self.markers@,
        }
    }
}

impl AudioControlPanel {
    /// Panel `id_acp` as at power-up: transmitting on channel 1, voice
    /// button up, switch at rest, every volume zero and only VHF 2 received.
    pub fn new(id_acp: usize) -> (r: Self)
        ensures
            r@.id == id_acp,
            r@.transmit_channel == 1,
            r@.int_rad_switch == 50,
            !r@.voice_button,
            r@.vhfs == seq![
                KnobState { volume: 0, receive: false },
                KnobState { volume: 0, receive: true },
                KnobState { volume: 0, receive: false },
            ],
            r@.comms == Seq::new(5, |i: int| KnobState { volume: 0, receive: false }),
            r@.adfs == Seq::new(2, |i: int| KnobState { volume: 0, receive: false }),
            r@.vors == Seq::new(2, |i: int| KnobState { volume: 0, receive: false }),
            r@.ils == (KnobState { volume: 0, receive: false }),
            r@.gls == (KnobState { volume: 0, receive: false }),
            r@.markers == (KnobState { volume: 0, receive: false }),
    {
        let r = AudioControlPanel {
            id: id_acp,
            voice_button: false,
            transmit_channel: 1,
            int_rad_switch: 50,
            vhfs: [VHF::new_vhf1(), VHF::new_vhf2(), VHF::new_vhf3()],
            comms: [
                COMM::new_long(),
                COMM::new_long(),
                COMM::new_short(),
                COMM::new_short(),
                COMM::new_short(),
            ],
            adfs: [ADF::new(), ADF::new()],
            vors: [VOR::new(), VOR::new()],
            ils: ILS::new(),
            gls: GLS::new(),
            markers: MARKERS::new(),
        };
        proof {
            assert(r@.vhfs =~= seq![
                KnobState { volume: 0, receive: false },
                KnobState { volume: 0, receive: true },
                KnobState { volume: 0, receive: false },
            ]);
            assert(r@.comms =~= Seq::new(5, |i: int| KnobState { volume: 0, receive: false }));
            assert(r@.adfs =~= Seq::new(2, |i: int| KnobState { volume: 0, receive: false }));
            assert(r@.vors =~= Seq::new(2, |i: int| KnobState { volume: 0, receive: false }));
        }
        r
    }

    /// Records the panel's own controls as read from the cockpit.
    pub fn read(&mut self, int_rad_switch: u8, voice_button: bool, transmit_channel: u8)
        ensures
            final(self)@ == (AcpState {
                int_rad_switch,
                voice_button,
                transmit_channel,
                ..old(self)@
            }),
    {
        self.int_rad_switch = int_rad_switch;
        self.voice_button = voice_button;
        self.transmit_channel = transmit_channel;
    }

    /// Records the knob of `channel` as read from the cockpit.
    pub fn read_channel(&mut self, channel: Channel, volume: u8, receive: bool)
        ensures
            final(self)@ == with_knob(old(self)@, channel, KnobState { volume, receive }),
    {
        match channel {
            Channel::Vhf1 => {
                let mut k = self.vhfs[0];
                k.set_volume(volume);
                k.set_receive(receive);
                self.vhfs = [k, self.vhfs[1], self.vhfs[2]];
            },
            Channel::Vhf2 => {
                let mut k = self.vhfs[1];
                k.set_volume(volume);
                k.set_receive(receive);
                self.vhfs = [self.vhfs[0], k, self.vhfs[2]];
            },
            Channel::Vhf3 => {
                let mut k = self.vhfs[2];
                k.set_volume(volume);
                k.set_receive(receive);
                self.vhfs = [self.vhfs[0], self.vhfs[1], k];
            },
            Channel::Hf1 => {
                let mut k = self.comms[0];
                k.set_volume(volume);
                k.set_receive(receive);
                self.comms = [k, self.comms[1], self.comms[2], self.comms[3], self.comms[4]];
            },
            Channel::Hf2 => {
                let mut k = self.comms[1];
                k.set_volume(volume);
                k.set_receive(receive);
                self.comms = [self.comms[0], k, self.comms[2], self.comms[3], self.comms[4]];
            },
            Channel::Pa => {
                let mut k = self.comms[2];
                k.set_volume(volume);
                k.set_receive(receive);
                self.comms = [self.comms[0], self.comms[1], k, self.comms[3], self.comms[4]];
            },
            Channel::Mech => {
                let mut k = self.comms[3];
                k.set_volume(volume);
                k.set_receive(receive);
                self.comms = [self.comms[0], self.comms[1], self.comms[2], k, self.comms[4]];
            },
            Channel::Att => {
                let mut k = self.comms[4];
                k.set_volume(volume);
                k.set_receive(receive);
                self.comms = [self.comms[0], self.comms[1], self.comms[2], self.comms[3], k];
            },
            Channel::Adf1 => {
                let mut k = self.adfs[0];
                k.set_volume(volume);
                k.set_receive(receive);
                self.adfs = [k, self.adfs[1]];
            },
            Channel::Adf2 => {
                let mut k = self.adfs[1];
                k.set_volume(volume);
                k.set_receive(receive);
                self.adfs = [self.adfs[0], k];
            },
            Channel::Vor1 => {
                let mut k = self.vors[0];
                k.set_volume(volume);
                k.set_receive(receive);
                self.vors = [k, self.vors[1]];
            },
            Channel::Vor2 => {
                let mut k = self.vors[1];
                k.set_volume(volume);
                k.set_receive(receive);
                self.vors = [self.vors[0], k];
            },
            Channel::Ils => {
                self.ils.set_volume(volume);
                self.ils.set_receive(receive);
            },
            Channel::Gls => {
                self.gls.set_volume(volume);
                self.gls.set_receive(receive);
            },
            Channel::Markers => {
                self.markers.set_volume(volume);
                self.markers.set_receive(receive);
            },
        }
        proof {
            assert(self@.vhfs =~= with_knob(old(self)@, channel, KnobState { volume, receive }).vhfs);
            assert(self@.comms =~= with_knob(old(self)@, channel, KnobState { volume, receive }).comms);
            assert(self@.adfs =~= with_knob(old(self)@, channel, KnobState { volume, receive }).adfs);
            assert(self@.vors =~= with_knob(old(self)@, channel, KnobState { volume, receive }).vors);
        }
    }

    /// The selected transmit channel.
    pub fn get_transmit_channel_value(&self) -> (r: u8)
        ensures
            r == self@.transmit_channel,
    {
        self.transmit_channel
    }

    /// Volume of VHF 1.
    pub fn get_volume_com1(&self) -> (r: u8)
        ensures
            r == self@.vhfs[0].volume,
    {
        self.vhfs[0].get_volume()
    }

    /// Volume of VHF 2.
    pub fn get_volume_com2(&self) -> (r: u8)
        ensures
            r == self@.vhfs[1].volume,
    {
        self.vhfs[1].get_volume()
    }

    /// Volume of VHF 3.
    pub fn get_volume_com3(&self) -> (r: u8)
        ensures
            r == self@.vhfs[2].volume,
    {
        self.vhfs[2].get_volume()
    }

    /// Volume of ADF 1.
    pub fn get_volume_adf1(&self) -> (r: u8)
        ensures
            r == self@.adfs[0].volume,
    {
        self.adfs[0].get_volume()
    }

    /// Volume of ADF 2.
    pub fn get_volume_adf2(&self) -> (r: u8)
        ensures
            r == self@.adfs[1].volume,
    {
        self.adfs[1].get_volume()
    }

    /// Volume of VOR 1.
    pub fn get_volume_vor1(&self) -> (r: u8)
        ensures
            r == self@.vors[0].volume,
    {
        self.vors[0].get_volume()
    }

    /// Volume of VOR 2.
    pub fn get_volume_vor2(&self) -> (r: u8)
        ensures
            r == self@.vors[1].volume,
    {
        self.vors[1].get_volume()
    }

    /// Volume of the ILS.
    pub fn get_volume_ils(&self) -> (r: u8)
        ensures
            r == self@.ils.volume,
    {
        self.ils.get_volume()
    }

    /// Volume of the GLS.
    pub fn get_volume_gls(&self) -> (r: u8)
        ensures
            r == self@.gls.volume,
    {
        self.gls.get_volume()
    }

    /// Volume of HF 1.
    pub fn get_volume_hf1(&self) -> (r: u8)
        ensures
            r == self@.comms[0].volume,
    {
        self.comms[0].get_volume()
    }

    /// Volume of HF 2.
    pub fn get_volume_hf2(&self) -> (r: u8)
        ensures
            r == self@.comms[1].volume,
    {
        self.comms[1].get_volume()
    }

    /// Volume of the PA.
    pub fn get_volume_pa(&self) -> (r: u8)
        ensures
            r == self@.comms[2].volume,
    {
        self.comms[2].get_volume()
    }

    /// Volume of the mechanic channel.
    pub fn get_volume_mech(&self) -> (r: u8)
        ensures
            r == self@.comms[3].volume,
    {
        self.comms[3].get_volume()
    }

    /// Volume of the attendant channel.
    pub fn get_volume_att(&self) -> (r: u8)
        ensures
            r == self@.comms[4].volume,
    {
        self.comms[4].get_volume()
    }

    /// Volume of the marker beacons.
    pub fn get_volume_markers(&self) -> (r: u8)
        ensures
            r == self@.markers.volume,
    {
        self.markers.get_volume()
    }

    /// Whether VHF 1 is selected for reception.
    pub fn get_receive_com1(&self) -> (r: bool)
        ensures
            r == self@.vhfs[0].receive,
    {
        self.vhfs[0].get_receive()
    }

    /// Whether VHF 2 is selected for reception.
    pub fn get_receive_com2(&self) -> (r: bool)
        ensures
            r == self@.vhfs[1].receive,
    {
        self.vhfs[1].get_receive()
    }

    /// Whether VHF 3 is selected for reception.
    pub fn get_receive_com3(&self) -> (r: bool)
        ensures
            r == self@.vhfs[2].receive,
    {
        self.vhfs[2].get_receive()
    }

    /// Whether HF 1 is selected for reception.
    pub fn get_receive_hf1(&self) -> (r: bool)
        ensures
            r == self@.comms[0].receive,
    {
        self.comms[0].get_receive()
    }

    /// Whether HF 2 is selected for reception.
    pub fn get_receive_hf2(&self) -> (r: bool)
        ensures
            r == self@.comms[1].receive,
    {
        self.comms[1].get_receive()
    }

    /// Whether the PA is selected for reception.
    pub fn get_receive_pa(&self) -> (r: bool)
        ensures
            r == self@.comms[2].receive,
    {
        self.comms[2].get_receive()
    }

    /// Whether the mechanic channel is selected for reception.
    pub fn get_receive_mech(&self) -> (r: bool)
        ensures
            r == self@.comms[3].receive,
    {
        self.comms[3].get_receive()
    }

    /// Whether the attendant channel is selected for reception.
    pub fn get_receive_att(&self) -> (r: bool)
        ensures
            r == self@.comms[4].receive,
    {
        self.comms[4].get_receive()
    }

    /// Whether ADF 1 is heard: selected, and the voice button up.
    pub fn get_receive_adf1(&self) -> (r: bool)
        ensures
            r == (self@.adfs[0].receive && !self@.voice_button),
    {
        self.adfs[0].get_receive() && !self.voice_button
    }

    /// Whether ADF 2 is heard: selected, and the voice button up.
    pub fn get_receive_adf2(&self) -> (r: bool)
        ensures
            r == (self@.adfs[1].receive && !self@.voice_button),
    {
        self.adfs[1].get_receive() && !self.voice_button
    }

    /// Whether VOR 1 is heard: selected, and the voice button up.
    pub fn get_receive_vor1(&self) -> (r: bool)
        ensures
            r == (self@.vors[0].receive && !self@.voice_button),
    {
        self.vors[0].get_receive() && !self.voice_button
    }

    /// Whether VOR 2 is heard: selected, and the voice button up.
    pub fn get_receive_vor2(&self) -> (r: bool)
        ensures
            r == (self@.vors[1].receive && !self@.voice_button),
    {
        self.vors[1].get_receive() && !self.voice_button
    }

    /// Whether the ILS is heard: selected, and the voice button up.
    pub fn get_receive_ils(&self) -> (r: bool)
        ensures
            r == (self@.ils.receive && !self@.voice_button),
    {
        self.ils.get_receive() && !self.voice_button
    }

    /// Whether the GLS is heard: selected, and the voice button up.
    pub fn get_receive_gls(&self) -> (r: bool)
        ensures
            r == (self@.gls.receive && !self@.voice_button),
    {
        self.gls.get_receive() && !self.voice_button
    }

    /// Whether the marker beacons is heard: selected, and the voice button up.
    pub fn get_receive_markers(&self) -> (r: bool)
        ensures
            r == (self@.markers.receive && !self@.voice_button),
    {
        self.markers.get_receive() && !self.voice_button
    }

    /// Whether the voice button is down (navigation identifiers muted).
    pub fn get_voice_button(&self) -> (r: bool)
        ensures
            r == self@.voice_button,
    {
        self.voice_button
    }

    /// Position of the interphone/radio switch.
    pub fn get_int_rad_switch(&self) -> (r: u8)
        ensures
            r == self@.int_rad_switch,
    {
        self.int_rad_switch
    }

    /// Whether the panel transmits on the selected radio channel: the
    /// interphone/radio switch is at its bottom position.
    pub fn is_emitting(&self) -> (r: bool)
        ensures
            r == (self@.int_rad_switch == 0),
    {
        self.int_rad_switch == 0
    }

    /// Takes over the transmit channel of `other_acp`.
    pub fn update_transmit(&mut self, other_acp: &AudioControlPanel)
        ensures
            final(self)@ == (AcpState {
                transmit_channel: other_acp@.transmit_channel,
                ..old(self)@
            }),
    {
        self.transmit_channel = other_acp.get_transmit_channel_value();
    }

    /// Takes over every volume of `other_acp`.
    pub fn update_volume(&mut self, other_acp: &AudioControlPanel)
        ensures
            final(self)@ == (AcpState {
                vhfs: copy_volumes(old(self)@.vhfs, other_acp@.vhfs),
                comms: copy_volumes(old(self)@.comms, other_acp@.comms),
                adfs: copy_volumes(old(self)@.adfs, other_acp@.adfs),
                vors: copy_volumes(old(self)@.vors, other_acp@.vors),
                ils: KnobState { volume: other_acp@.ils.volume, ..old(self)@.ils },
                gls: KnobState { volume: other_acp@.gls.volume, ..old(self)@.gls },
                markers: KnobState { volume: other_acp@.markers.volume, ..old(self)@.markers },
                ..old(self)@
            }),
    {
        let mut vhf0 = self.vhfs[0];
        vhf0.set_volume(other_acp.get_volume_com1());
        let mut vhf1 = self.vhfs[1];
        vhf1.set_volume(other_acp.get_volume_com2());
        let mut vhf2 = self.vhfs[2];
        vhf2.set_volume(other_acp.get_volume_com3());
        let mut adf0 = self.adfs[0];
        adf0.set_volume(other_acp.get_volume_adf1());
        let mut adf1 = self.adfs[1];
        adf1.set_volume(other_acp.get_volume_adf2());
        let mut vor0 = self.vors[0];
        vor0.set_volume(other_acp.get_volume_vor1());
        let mut vor1 = self.vors[1];
        vor1.set_volume(other_acp.get_volume_vor2());
        self.ils.set_volume(other_acp.get_volume_ils());
        self.gls.set_volume(other_acp.get_volume_gls());
        let mut comm0 = self.comms[0];
        comm0.set_volume(other_acp.get_volume_hf1());
        let mut comm1 = self.comms[1];
        comm1.set_volume(other_acp.get_volume_hf2());
        let mut comm2 = self.comms[2];
        comm2.set_volume(other_acp.get_volume_pa());
        let mut comm3 = self.comms[3];
        comm3.set_volume(other_acp.get_volume_mech());
        let mut comm4 = self.comms[4];
        comm4.set_volume(other_acp.get_volume_att());
        self.markers.set_volume(other_acp.get_volume_markers());
        self.vhfs = [vhf0, vhf1, vhf2];
        self.comms = [comm0, comm1, comm2, comm3, comm4];
        self.adfs = [adf0, adf1];
        self.vors = [vor0, vor1];
        proof {
            assert(self@.vhfs =~= copy_volumes(old(self)@.vhfs, other_acp@.vhfs));
            assert(self@.comms =~= copy_volumes(old(self)@.comms, other_acp@.comms));
            assert(self@.adfs =~= copy_volumes(old(self)@.adfs, other_acp@.adfs));
            assert(self@.vors =~= copy_volumes(old(self)@.vors, other_acp@.vors));
        }
    }

    /// Takes over what `other_acp` receives; the navigation channels it
    /// mutes with its voice button come over deselected.
    pub fn update_receive(&mut self, other_acp: &AudioControlPanel)
        ensures
            final(self)@ == (AcpState {
                vhfs: copy_receives(old(self)@.vhfs, other_acp@.vhfs, false),
                comms: copy_receives(old(self)@.comms, other_acp@.comms, false),
                adfs: copy_receives(old(self)@.adfs, other_acp@.adfs, other_acp@.voice_button),
                vors: copy_receives(old(self)@.vors, other_acp@.vors, other_acp@.voice_button),
                ils: KnobState {
                    receive: other_acp@.ils.receive && !other_acp@.voice_button,
                    ..old(self)@.ils
                },
                gls: KnobState {
                    receive: other_acp@.gls.receive && !other_acp@.voice_button,
                    ..old(self)@.gls
                },
                markers: KnobState {
                    receive: other_acp@.markers.receive && !other_acp@.voice_button,
                    ..old(self)@.markers
                },
                ..old(self)@
            }),
    {
        let mut vhf0 = self.vhfs[0];
        vhf0.set_receive(other_acp.get_receive_com1());
        let mut vhf1 = self.vhfs[1];
        vhf1.set_receive(other_acp.get_receive_com2());
        let mut vhf2 = self.vhfs[2];
        vhf2.set_receive(other_acp.get_receive_com3());
        let mut comm0 = self.comms[0];
        comm0.set_receive(other_acp.get_receive_hf1());
        let mut comm1 = self.comms[1];
        comm1.set_receive(other_acp.get_receive_hf2());
        let mut comm2 = self.comms[2];
        comm2.set_receive(other_acp.get_receive_pa());
        let mut comm3 = self.comms[3];
        comm3.set_receive(other_acp.get_receive_mech());
        let mut comm4 = self.comms[4];
        comm4.set_receive(other_acp.get_receive_att());
        let mut adf0 = self.adfs[0];
        adf0.set_receive(other_acp.get_receive_adf1());
        let mut adf1 = self.adfs[1];
        adf1.set_receive(other_acp.get_receive_adf2());
        let mut vor0 = self.vors[0];
        vor0.set_receive(other_acp.get_receive_vor1());
        let mut vor1 = self.vors[1];
        vor1.set_receive(other_acp.get_receive_vor2());
        self.ils.set_receive(other_acp.get_receive_ils());
        self.gls.set_receive(other_acp.get_receive_gls());
        self.markers.set_receive(other_acp.get_receive_markers());
        self.vhfs = [vhf0, vhf1, vhf2];
        self.comms = [comm0, comm1, comm2, comm3, comm4];
        self.adfs = [adf0, adf1];
        self.vors = [vor0, vor1];
        proof {
            assert(self@.vhfs =~= copy_receives(old(self)@.vhfs, other_acp@.vhfs, false));
            assert(self@.comms =~= copy_receives(old(self)@.comms, other_acp@.comms, false));
            assert(self@.adfs =~= copy_receives(
                old(self)@.adfs,
                other_acp@.adfs,
                other_acp@.voice_button,
            ));
            assert(self@.vors =~= copy_receives(
                old(self)@.vors,
                other_acp@.vors,
                other_acp@.voice_button,
            ));
        }
    }

    /// Takes over the voice button and the interphone/radio switch of
    /// `other_acp`.
    pub fn update_misc(&mut self, other_acp: &AudioControlPanel)
        ensures
            final(self)@ == (AcpState {
                voice_button: other_acp@.voice_button,
                int_rad_switch: other_acp@.int_rad_switch,
                ..old(self)@
            }),
    {
        self.voice_button = other_acp.get_voice_button();
        self.int_rad_switch = other_acp.get_int_rad_switch();
    }
}

} // verus!
