//! Device state management: the per-device data model, the shared state
//! container with change notifications, and the status derivation.

use vstd::prelude::*;

verus! {

/// Thread status, derived from the `running` and `paused` flags kept in the
/// shared state: not running means `Stopped`; running and paused means
/// `Paused`; running and not paused means `Running`. `Error` is reported
/// only through the separate error-message field and never produced by the
/// derivation itself.
#[derive(Debug, Clone, Copy, PartialEq, Eq, Structural)]
pub enum ThreadStatus {
    /// Thread is not running
    Stopped,
    /// Thread is running
    Running,
    /// Thread is paused
    Paused,
    /// Thread is in error state
    Error,
}

/// Live data of a single I/O pin.
#[derive(Debug, Clone, Copy, PartialEq, Eq, Structural)]
pub struct PinData {
    /// Digital counter value for counter-capable pins
    pub digital_counter_value: u32,
    /// Last analog reading (12-bit)
    pub analog_value: u32,
    /// Configured pin function code
    pub pin_function: u8,
    /// Digital input mirror (non-zero means high)
    pub digital_value_get: u8,
    /// Digital output request (non-zero means high)
    pub digital_value_set: u8,
}

impl PinData {
    /// The cleared pin value, for contracts.
    pub open spec fn cleared() -> Self {
        PinData {
            digital_counter_value: 0u32,
            analog_value: 0u32,
            pin_function: 0u8,
            digital_value_get: 0u8,
            digital_value_set: 0u8,
        }
    }

    /// A pin with all values cleared.
    pub fn new() -> (r: Self)
        ensures
            r == Self::cleared(),
    {
        PinData {
            digital_counter_value: 0,
            analog_value: 0,
            pin_function: 0,
            digital_value_get: 0,
            digital_value_set: 0,
        }
    }
}

impl Default for PinData {
    fn default() -> (r: Self)
        ensures
            r == PinData::cleared(),
    {
        PinData::new()
    }
}

/// Live data of a single quadrature encoder channel.
#[derive(Debug, Clone, Copy, PartialEq, Eq, Structural)]
pub struct EncoderData {
    /// Current encoder value (32-bit signed)
    pub encoder_value: i32,
    /// Encoder configuration options
    pub encoder_options: u8,
    /// Channel A input pin
    pub channel_a_pin: u8,
    /// Channel B input pin
    pub channel_b_pin: u8,
}

impl EncoderData {
    /// The cleared encoder value, for contracts.
    pub open spec fn cleared() -> Self {
        EncoderData { encoder_value: 0i32, encoder_options: 0u8, channel_a_pin: 0u8, channel_b_pin: 0u8 }
    }

    /// An encoder with all values cleared.
    pub fn new() -> (r: Self)
        ensures
            r == Self::cleared(),
    {
        EncoderData { encoder_value: 0, encoder_options: 0, channel_a_pin: 0, channel_b_pin: 0 }
    }
}

impl Default for EncoderData {
    fn default() -> (r: Self)
        ensures
            r == EncoderData::cleared(),
    {
        EncoderData::new()
    }
}

/// PWM output state: one shared period and six duty-cycle channels.
#[derive(Debug, Clone, Copy, PartialEq, Eq)]
pub struct PwmData {
    /// PWM period (shared among all channels)
    pub pwm_period: u32,
    /// PWM duty cycle values for the six channels
    pub pwm_values: [u32; 6],
    /// Enabled channels bitmask (bit 0 = channel 0, and so on)
    pub enabled_channels: u8,
}

impl PwmData {
    /// The cleared PWM state, for contracts.
    pub open spec fn cleared() -> Self {
        PwmData { pwm_period: 0u32, pwm_values: [0u32, 0u32, 0u32, 0u32, 0u32, 0u32], enabled_channels: 0u8 }
    }

    /// PWM state with all channels cleared.
    pub fn new() -> (r: Self)
        ensures
            r == Self::cleared(),
            r.pwm_period == 0,
            r.enabled_channels == 0,
    {
        PwmData { pwm_period: 0, pwm_values: [0, 0, 0, 0, 0, 0], enabled_channels: 0 }
    }
}

impl Default for PwmData {
    fn default() -> (r: Self)
        ensures
            r == PwmData::cleared(),
    {
        PwmData::new()
    }
}

/// Capability counts and feature flags reported by a device.
#[derive(Debug, Clone, Copy, PartialEq, Eq, Structural)]
pub struct DeviceInfo {
    pub pin_count: u32,
    pub pwm_count: u32,
    pub basic_encoder_count: u32,
    pub encoders_count: u32,
    pub fast_encoders: u32,
    pub ultra_fast_encoders: u32,
    pub pwm_internal_frequency: u32,
    pub analog_inputs: u32,
    pub key_mapping: u32,
    pub triggered_key_mapping: u32,
    pub key_repeat_delay: u32,
    pub digital_counters: u32,
    pub joystick_button_axis_mapping: u32,
    pub joystick_analog_to_digital_mapping: u32,
    pub macros: u32,
    pub matrix_keyboard: u32,
    pub matrix_keyboard_triggered_mapping: u32,
    pub lcd: u32,
    pub matrix_led: u32,
    pub connection_signal: u32,
    pub po_ext_bus: u32,
    pub po_net: u32,
    pub analog_filtering: u32,
    pub init_outputs_start: u32,
    pub prot_i2c: u32,
    pub prot_1wire: u32,
    pub additional_options: u32,
    pub load_status: u32,
    pub custom_device_name: u32,
    pub po_tlog27_support: u32,
    pub sensor_list: u32,
    pub web_interface: u32,
    pub fail_safe_settings: u32,
    pub joystick_hat_switch: u32,
    pub pulse_engine: u32,
    pub pulse_engine_v2: u32,
    pub easy_sensors: u32,
}

impl DeviceInfo {
    /// The cleared capability record, for contracts.
    pub open spec fn cleared() -> Self {
        DeviceInfo {
            pin_count: 0u32,
            pwm_count: 0u32,
            basic_encoder_count: 0u32,
            encoders_count: 0u32,
            fast_encoders: 0u32,
            ultra_fast_encoders: 0u32,
            pwm_internal_frequency: 0u32,
            analog_inputs: 0u32,
            key_mapping: 0u32,
            triggered_key_mapping: 0u32,
            key_repeat_delay: 0u32,
            digital_counters: 0u32,
            joystick_button_axis_mapping: 0u32,
            joystick_analog_to_digital_mapping: 0u32,
            macros: 0u32,
            matrix_keyboard: 0u32,
            matrix_keyboard_triggered_mapping: 0u32,
            lcd: 0u32,
            matrix_led: 0u32,
            connection_signal: 0u32,
            po_ext_bus: 0u32,
            po_net: 0u32,
            analog_filtering: 0u32,
            init_outputs_start: 0u32,
            prot_i2c: 0u32,
            prot_1wire: 0u32,
            additional_options: 0u32,
            load_status: 0u32,
            custom_device_name: 0u32,
            po_tlog27_support: 0u32,
            sensor_list: 0u32,
            web_interface: 0u32,
            fail_safe_settings: 0u32,
            joystick_hat_switch: 0u32,
            pulse_engine: 0u32,
            pulse_engine_v2: 0u32,
            easy_sensors: 0u32,
        }
    }

    /// Capability record with every count and flag cleared.
    pub fn new() -> (r: Self)
        ensures
            r == Self::cleared(),
    {
        DeviceInfo {
            pin_count: 0,
            pwm_count: 0,
            basic_encoder_count: 0,
            encoders_count: 0,
            fast_encoders: 0,
            ultra_fast_encoders: 0,
            pwm_internal_frequency: 0,
            analog_inputs: 0,
            key_mapping: 0,
            triggered_key_mapping: 0,
            key_repeat_delay: 0,
            digital_counters: 0,
            joystick_button_axis_mapping: 0,
            joystick_analog_to_digital_mapping: 0,
            macros: 0,
            matrix_keyboard: 0,
            matrix_keyboard_triggered_mapping: 0,
            lcd: 0,
            matrix_led: 0,
            connection_signal: 0,
            po_ext_bus: 0,
            po_net: 0,
            analog_filtering: 0,
            init_outputs_start: 0,
            prot_i2c: 0,
            prot_1wire: 0,
            additional_options: 0,
            load_status: 0,
            custom_device_name: 0,
            po_tlog27_support: 0,
            sensor_list: 0,
            web_interface: 0,
            fail_safe_settings: 0,
            joystick_hat_switch: 0,
            pulse_engine: 0,
            pulse_engine_v2: 0,
            easy_sensors: 0,
        }
    }
}

impl Default for DeviceInfo {
    fn default() -> (r: Self)
        ensures
            r == DeviceInfo::cleared(),
    {
        DeviceInfo::new()
    }
}

/// Identity data reported by a device.
#[derive(Debug, Clone, Copy, PartialEq, Eq)]
pub struct DeviceData {
    pub device_type_id: u32,
    pub serial_number: u32,
    pub device_name: [u8; 30],
    pub device_type_name: [u8; 30],
    pub build_date: [u8; 12],
    pub activation_code: [u8; 8],
    pub firmware_version_major: u8,
    pub firmware_version_minor: u8,
    pub firmware_revision: u8,
    pub user_id: u8,
    pub device_type: u8,
    pub activated_options: u8,
    pub device_lock_status: u8,
    pub hw_type: u8,
    pub fw_type: u8,
    pub product_id: u8,
    pub secondary_firmware_version_major: u8,
    pub secondary_firmware_version_minor: u8,
    pub device_is_bootloader: u8,
}

impl DeviceData {
    /// Whether every field of the identity record is cleared.
    pub open spec fn is_cleared(r: Self) -> bool {
        &&& r.device_type_id == 0
        &&& r.serial_number == 0
        &&& r.device_name@ =~= Seq::new(30, |i: int| 0u8)
        &&& r.device_type_name@ =~= Seq::new(30, |i: int| 0u8)
        &&& r.build_date@ =~= Seq::new(12, |i: int| 0u8)
        &&& r.activation_code@ =~= Seq::new(8, |i: int| 0u8)
        &&& r.firmware_version_major == 0
        &&& r.firmware_version_minor == 0
        &&& r.firmware_revision == 0
        &&& r.user_id == 0
        &&& r.device_type == 0
        &&& r.activated_options == 0
        &&& r.device_lock_status == 0
        &&& r.hw_type == 0
        &&& r.fw_type == 0
        &&& r.product_id == 0
        &&& r.secondary_firmware_version_major == 0
        &&& r.secondary_firmware_version_minor == 0
        &&& r.device_is_bootloader == 0
    }

    /// Identity record with every field cleared.
    pub fn new() -> (r: Self)
        ensures
            Self::is_cleared(r),
    {
        DeviceData {
            device_type_id: 0,
            serial_number: 0,
            device_name: [0; 30],
            device_type_name: [0; 30],
            build_date: [0; 12],
            activation_code: [0; 8],
            firmware_version_major: 0,
            firmware_version_minor: 0,
            firmware_revision: 0,
            user_id: 0,
            device_type: 0,
            activated_options: 0,
            device_lock_status: 0,
            hw_type: 0,
            fw_type: 0,
            product_id: 0,
            secondary_firmware_version_major: 0,
            secondary_firmware_version_minor: 0,
            device_is_bootloader: 0,
        }
    }
}

impl Default for DeviceData {
    fn default() -> (r: Self)
        ensures
            DeviceData::is_cleared(r),
    {
        DeviceData::new()
    }
}

/// Hot-swappable capability descriptor attached to a device. Only the
/// name is carried here; the descriptor's pin tables live with the store
/// that loads it.
#[derive(Debug)]
pub struct DeviceModel {
    /// Device model name
    pub name: String,
}

impl DeviceModel {
    /// A descriptor with the given name.
    pub fn new(name: String) -> (r: Self)
        ensures
            r.name == name,
    {
        DeviceModel { name }
    }

    /// Field-for-field copy.
    pub fn duplicate(&self) -> (r: Self)
        ensures
            r == *self,
    {
        DeviceModel { name: self.name.clone() }
    }
}

/// Field-for-field copy of an optional model descriptor.
pub fn dup_model_opt(m: &Option<DeviceModel>) -> (r: Option<DeviceModel>)
    ensures
        r == *m,
{
    match m {
        Option::None => Option::None,
        Option::Some(x) => Option::Some(x.duplicate()),
    }
}

/// Field-for-field copy of an optional string.
pub fn dup_string_opt(m: &Option<String>) -> (r: Option<String>)
    ensures
        r == *m,
{
    match m {
        Option::None => Option::None,
        Option::Some(s) => Option::Some(s.clone()),
    }
}

/// A single state-change notification delivered to observers.
#[derive(Debug, Clone, PartialEq, Eq)]
pub enum StateChangeType {
    /// Digital input changed
    DigitalInput { pin: u32, value: bool },
    /// Digital output changed
    DigitalOutput { pin: u32, value: bool },
    /// Analog input changed
    AnalogInput { pin: u32, value: u32 },
    /// Analog output changed
    AnalogOutput { pin: u32, value: u32 },
    /// Encoder value changed
    EncoderValue { index: u32, value: i32 },
    /// PWM duty cycle changed
    PwmDutyCycle { channel: usize, duty: u32 },
    /// Thread status changed
    ThreadStatus { status: ThreadStatus },
    /// Error occurred
    Error { message: Option<String> },
    /// Custom value changed
    CustomValue { key: String, value: String },
    /// Full state update
    FullUpdate,
}

/// Field-for-field copy of a notification, used to fan one change out to
/// every subscriber queue.
pub fn dup_change(c: &StateChangeType) -> (r: StateChangeType)
    ensures
        r == *c,
{
    match c {
        StateChangeType::DigitalInput { pin, value } => StateChangeType::DigitalInput {
            pin: *pin,
            value: *value,
        },
        StateChangeType::DigitalOutput { pin, value } => StateChangeType::DigitalOutput {
            pin: *pin,
            value: *value,
        },
        StateChangeType::AnalogInput { pin, value } => StateChangeType::AnalogInput {
            pin: *pin,
            value: *value,
        },
        StateChangeType::AnalogOutput { pin, value } => StateChangeType::AnalogOutput {
            pin: *pin,
            value: *value,
        },
        StateChangeType::EncoderValue { index, value } => StateChangeType::EncoderValue {
            index: *index,
            value: *value,
        },
        StateChangeType::PwmDutyCycle { channel, duty } => StateChangeType::PwmDutyCycle {
            channel: *channel,
            duty: *duty,
        },
        StateChangeType::ThreadStatus { status } => StateChangeType::ThreadStatus {
            status: *status,
        },
        StateChangeType::Error { message } => StateChangeType::Error {
            message: dup_string_opt(message),
        },
        StateChangeType::CustomValue { key, value } => StateChangeType::CustomValue {
            key: key.clone(),
            value: value.clone(),
        },
        StateChangeType::FullUpdate => StateChangeType::FullUpdate,
    }
}

/// First-match lookup in a key/value association list.
pub open spec fn kv_lookup(s: Seq<(String, String)>, k: Seq<char>) -> Option<Seq<char>>
    decreases s.len(),
{
    if s.len() == 0 {
        Option::None
    } else if s[0].0@ == k {
        Option::Some(s[0].1@)
    } else {
        kv_lookup(s.drop_first(), k)
    }
}

/// A first-match lookup skips any prefix that does not hold the key.
pub proof fn lemma_kv_lookup_skip(s: Seq<(String, String)>, k: Seq<char>, i: int)
    requires
        0 <= i <= s.len(),
        forall|j: int| 0 <= j < i ==> s[j].0@ != k,
    ensures
        kv_lookup(s, k) == kv_lookup(s.skip(i), k),
    decreases i,
{
    if i > 0 {
        assert(s.skip(i) =~= s.drop_first().skip(i - 1));
        lemma_kv_lookup_skip(s.drop_first(), k, i - 1);
    } else {
        assert(s.skip(0) =~= s);
    }
}

/// Replacing the entry at the first match of `k` rewrites the value bound
/// to `k` and leaves every other key's binding unchanged.
pub proof fn lemma_kv_lookup_update(
    s: Seq<(String, String)>,
    i: int,
    p: (String, String),
    k: Seq<char>,
)
    requires
        0 <= i < s.len(),
        forall|j: int| 0 <= j < i ==> s[j].0@ != k,
        s[i].0@ == k,
        p.0@ == k,
    ensures
        kv_lookup(s.update(i, p), k) == Option::Some(p.1@),
        forall|k2: Seq<char>| k2 != k ==> kv_lookup(s.update(i, p), k2) == kv_lookup(s, k2),
    decreases i,
{
    if i == 0 {
        assert(s.update(0, p)[0] == p);
        assert forall|k2: Seq<char>| k2 != k implies kv_lookup(s.update(0, p), k2) == kv_lookup(
            s,
            k2,
        ) by {
            assert(s.update(0, p).drop_first() =~= s.drop_first());
        }
    } else {
        let t = s.drop_first();
        lemma_kv_lookup_update(t, i - 1, p, k);
        assert(s.update(i, p).drop_first() =~= t.update(i - 1, p));
        assert(s.update(i, p)[0] == s[0]);
        assert(kv_lookup(s.update(i, p), k) == Option::Some(p.1@));
        assert forall|k2: Seq<char>| k2 != k implies kv_lookup(s.update(i, p), k2) == kv_lookup(
            s,
            k2,
        ) by {
            if s[0].0@ != k2 {
                assert(kv_lookup(s.update(i, p), k2) == kv_lookup(t.update(i - 1, p), k2));
                assert(kv_lookup(s, k2) == kv_lookup(t, k2));
            }
        }
    }
}

/// Appending a binding for a key that is absent adds that binding and
/// leaves every other key's binding unchanged.
pub proof fn lemma_kv_lookup_push(s: Seq<(String, String)>, p: (String, String))
    requires
        kv_lookup(s, p.0@) is None,
    ensures
        kv_lookup(s.push(p), p.0@) == Option::Some(p.1@),
        forall|k2: Seq<char>| k2 != p.0@ ==> kv_lookup(s.push(p), k2) == kv_lookup(s, k2),
    decreases s.len(),
{
    if s.len() == 0 {
        assert(s.push(p)[0] == p);
        assert forall|k2: Seq<char>| k2 != p.0@ implies kv_lookup(s.push(p), k2) == kv_lookup(
            s,
            k2,
        ) by {
            assert(s.push(p).drop_first() =~= s);
        }
    } else {
        let t = s.drop_first();
        lemma_kv_lookup_push(t, p);
        assert(s.push(p)[0] == s[0]);
        assert(s.push(p).drop_first() =~= t.push(p));
        assert(s[0].0@ != p.0@);
        assert(kv_lookup(s.push(p), p.0@) == kv_lookup(t.push(p), p.0@));
        assert forall|k2: Seq<char>| k2 != p.0@ implies kv_lookup(s.push(p), k2) == kv_lookup(
            s,
            k2,
        ) by {
            if s[0].0@ != k2 {
                assert(kv_lookup(s.push(p), k2) == kv_lookup(t.push(p), k2));
                assert(kv_lookup(s, k2) == kv_lookup(t, k2));
            }
        }
    }
}

/// Abstract equality of two device states: equal plain fields and equal
/// views of the array-valued fields.
pub open spec fn state_eq(a: DeviceState, b: DeviceState) -> bool {
    &&& a.device_info == b.device_info
    &&& a.device_data == b.device_data
    &&& a.model == b.model
    &&& a.pins@ == b.pins@
    &&& a.encoders@ == b.encoders@
    &&& a.pwm == b.pwm
    &&& a.last_update == b.last_update
    &&& a.status == b.status
    &&& a.error_message == b.error_message
    &&& a.custom_values@ == b.custom_values@
}

/// Snapshot of everything a full hardware refresh reads from a device:
/// identity, capabilities, the attached model, and all pin, encoder and
/// PWM values.
#[derive(Debug)]
pub struct DeviceSnapshot {
    /// Device information
    pub device_info: DeviceInfo,
    /// Device data
    pub device_data: DeviceData,
    /// Device model
    pub model: Option<DeviceModel>,
    /// Pin data
    pub pins: Vec<PinData>,
    /// Encoder data
    pub encoders: Vec<EncoderData>,
    /// PWM data
    pub pwm: PwmData,
}

/// Device state that is shared between threads: identity and capabilities,
/// live pin, encoder and PWM values, the attached model, custom key/value
/// entries, and the error annotation.
#[derive(Debug)]
pub struct DeviceState {
    /// Device information
    pub device_info: DeviceInfo,
    /// Device data
    pub device_data: DeviceData,
    /// Device model
    pub model: Option<DeviceModel>,
    /// Pin data
    pub pins: Vec<PinData>,
    /// Encoder data
    pub encoders: Vec<EncoderData>,
    /// PWM data
    pub pwm: PwmData,
    /// Stamp of the last update
    pub last_update: u64,
    /// Thread status
    pub status: ThreadStatus,
    /// Error message if any
    pub error_message: Option<String>,
    /// Custom state values
    pub custom_values: Vec<(String, String)>,
}

impl DeviceState {
    /// Whether `pin` is a valid 1-based pin number for this state.
    pub open spec fn valid_pin(self, pin: u32) -> bool {
        1 <= pin <= self.pins@.len()
    }

    /// Whether `index` is a valid 0-based encoder index for this state.
    pub open spec fn valid_encoder(self, index: u32) -> bool {
        index < self.encoders@.len()
    }

    /// Whether `channel` is a valid 0-based PWM channel for this state.
    pub open spec fn valid_pwm_channel(self, channel: usize) -> bool {
        channel < self.pwm.pwm_values@.len()
    }

    /// The freshly created state for a device: no pins, encoders, model
    /// or custom values, cleared PWM state, status `Stopped`, no error.
    pub open spec fn is_initial(self, device_info: DeviceInfo, device_data: DeviceData) -> bool {
        &&& self.device_info == device_info
        &&& self.device_data == device_data
        &&& self.model is None
        &&& self.pins@.len() == 0
        &&& self.encoders@.len() == 0
        &&& self.pwm == PwmData::cleared()
        &&& self.last_update == 0
        &&& self.status == ThreadStatus::Stopped
        &&& self.error_message is None
        &&& self.custom_values@.len() == 0
    }

    /// Create a new device state: no pins, encoders, model or custom
    /// values, cleared PWM state, status `Stopped` and no error.
    pub fn new(device_info: DeviceInfo, device_data: DeviceData) -> (r: Self)
        ensures
            r.is_initial(device_info, device_data),
            r.device_info == device_info,
            r.device_data == device_data,
            r.model is None,
            r.pins@.len() == 0,
            r.encoders@.len() == 0,
            r.pwm == PwmData::cleared(),
            r.last_update == 0,
            r.status == ThreadStatus::Stopped,
            r.error_message is None,
            r.custom_values@.len() == 0,
    {
        DeviceState {
            device_info,
            device_data,
            model: Option::None,
            pins: Vec::new(),
            encoders: Vec::new(),
            pwm: PwmData::new(),
            last_update: 0,
            status: ThreadStatus::Stopped,
            error_message: Option::None,
            custom_values: Vec::new(),
        }
    }

    /// Overwrite the device-sourced part of the state from a fresh
    /// hardware snapshot and stamp the update. Status, error annotation
    /// and custom values are kept.
    pub fn update_from_device(&mut self, snap: &DeviceSnapshot, stamp: u64)
        ensures
            final(self).device_info == snap.device_info,
            final(self).device_data == snap.device_data,
            final(self).model == snap.model,
            final(self).pins@ == snap.pins@,
            final(self).encoders@ == snap.encoders@,
            final(self).pwm == snap.pwm,
            final(self).last_update == stamp,
            final(self).status == old(self).status,
            final(self).error_message == old(self).error_message,
            final(self).custom_values == old(self).custom_values,
    {
        self.device_info = snap.device_info;
        self.device_data = snap.device_data;
        self.model = dup_model_opt(&snap.model);
        self.pins = dup_pins(&snap.pins);
        self.encoders = dup_encoders(&snap.encoders);
        self.pwm = snap.pwm;
        self.last_update = stamp;
    }

    /// The digital input of a valid pin, as a spec value.
    pub open spec fn digital_input_spec(self, pin: u32) -> bool {
        self.pins@[pin - 1].digital_value_get != 0
    }

    /// Get a digital input value: high or low for a valid 1-based pin
    /// number, absent for pin 0 or a pin past the end of the pin array.
    pub fn get_digital_input(&self, pin: u32) -> (r: Option<bool>)
        ensures
            r is Some <==> self.valid_pin(pin),
            r matches Some(v) ==> v == self.digital_input_spec(pin),
    {
        if pin == 0 || pin as usize > self.pins.len() {
            return Option::None;
        }
        let pin_index = (pin - 1) as usize;
        Option::Some(self.pins[pin_index].digital_value_get != 0)
    }

    /// The analog input of a valid pin, as a spec value.
    pub open spec fn analog_input_spec(self, pin: u32) -> u32 {
        self.pins@[pin - 1].analog_value
    }

    /// Get an analog input value for a valid 1-based pin number, absent
    /// for an invalid one.
    pub fn get_analog_input(&self, pin: u32) -> (r: Option<u32>)
        ensures
            r is Some <==> self.valid_pin(pin),
            r matches Some(v) ==> v == self.analog_input_spec(pin),
    {
        if pin == 0 || pin as usize > self.pins.len() {
            return Option::None;
        }
        let pin_index = (pin - 1) as usize;
        Option::Some(self.pins[pin_index].analog_value)
    }

    /// The value of a valid encoder, as a spec value.
    pub open spec fn encoder_value_spec(self, index: u32) -> i32 {
        self.encoders@[index as int].encoder_value
    }

    /// Get an encoder value for a valid 0-based index, absent for an
    /// index past the end of the encoder array.
    pub fn get_encoder_value(&self, encoder_index: u32) -> (r: Option<i32>)
        ensures
            r is Some <==> self.valid_encoder(encoder_index),
            r matches Some(v) ==> v == self.encoder_value_spec(encoder_index),
    {
        if encoder_index as usize >= self.encoders.len() {
            return Option::None;
        }
        Option::Some(self.encoders[encoder_index as usize].encoder_value)
    }

    /// The duty cycle of a valid PWM channel, as a spec value.
    pub open spec fn pwm_duty_spec(self, channel: usize) -> u32 {
        self.pwm.pwm_values@[channel as int]
    }

    /// Get a PWM duty cycle for a valid 0-based channel, absent for a
    /// channel past the end of the duty array.
    pub fn get_pwm_duty_cycle(&self, channel: usize) -> (r: Option<u32>)
        ensures
            r is Some <==> self.valid_pwm_channel(channel),
            r matches Some(v) ==> v == self.pwm_duty_spec(channel),
    {
        if channel >= 6 {
            return Option::None;
        }
        Option::Some(self.pwm.pwm_values[channel])
    }

    /// Field-for-field copy of the whole state.
    pub fn snapshot(&self) -> (r: Self)
        ensures
            state_eq(r, *self),
    {
        DeviceState {
            device_info: self.device_info,
            device_data: self.device_data,
            model: dup_model_opt(&self.model),
            pins: dup_pins(&self.pins),
            encoders: dup_encoders(&self.encoders),
            pwm: self.pwm,
            last_update: self.last_update,
            status: self.status,
            error_message: dup_string_opt(&self.error_message),
            custom_values: dup_custom_values(&self.custom_values),
        }
    }
}

impl Clone for DeviceState {
    /// Field-for-field copy of the whole state.
    fn clone(&self) -> (r: Self)
        ensures
            state_eq(r, *self),
    {
        self.snapshot()
    }
}

/// Element-for-element copy of a pin array.
pub fn dup_pins(v: &Vec<PinData>) -> (r: Vec<PinData>)
    ensures
        r@ == v@,
{
    let mut r: Vec<PinData> = Vec::new();
    let n = v.len();
    for i in 0..n
        invariant
            n == v@.len(),
            r@ =~= v@.take(i as int),
    {
        r.push(v[i]);
        proof {
            assert(r@ =~= v@.take(i + 1));
        }
    }
    proof {
        assert(v@.take(n as int) =~= v@);
    }
    r
}

/// Element-for-element copy of an encoder array.
pub fn dup_encoders(v: &Vec<EncoderData>) -> (r: Vec<EncoderData>)
    ensures
        r@ == v@,
{
    let mut r: Vec<EncoderData> = Vec::new();
    let n = v.len();
    for i in 0..n
        invariant
            n == v@.len(),
            r@ =~= v@.take(i as int),
    {
        r.push(v[i]);
        proof {
            assert(r@ =~= v@.take(i + 1));
        }
    }
    proof {
        assert(v@.take(n as int) =~= v@);
    }
    r
}

/// Entry-for-entry copy of the custom key/value list.
pub fn dup_custom_values(v: &Vec<(String, String)>) -> (r: Vec<(String, String)>)
    ensures
        r@ == v@,
{
    let mut r: Vec<(String, String)> = Vec::new();
    let n = v.len();
    for i in 0..n
        invariant
            n == v@.len(),
            r@ =~= v@.take(i as int),
    {
        let entry = (v[i].0.clone(), v[i].1.clone());
        assert(entry == v@[i as int]);
        r.push(entry);
        proof {
            assert(r@ =~= v@.take(i + 1));
        }
    }
    proof {
        assert(v@.take(n as int) =~= v@);
    }
    r
}

/// Derivation of the thread status from the two worker flags: not running
/// means `Stopped`; running and paused means `Paused`; running and not
/// paused means `Running`.
pub open spec fn status_from_flags(running: bool, paused: bool) -> ThreadStatus {
    if !running {
        ThreadStatus::Stopped
    } else if paused {
        ThreadStatus::Paused
    } else {
        ThreadStatus::Running
    }
}

/// The stamp written by the next update: one past the previous stamp,
/// held at the numeric ceiling.
pub open spec fn next_stamp(t: u64) -> u64 {
    if t == 0xFFFF_FFFF_FFFF_FFFFu64 {
        t
    } else {
        (t + 1) as u64
    }
}

/// Every subscriber queue of `q1` is the matching queue of `q0` with
/// `tail` appended.
pub open spec fn queues_extended(
    q0: Seq<Seq<StateChangeType>>,
    q1: Seq<Seq<StateChangeType>>,
    tail: Seq<StateChangeType>,
) -> bool {
    &&& q1.len() == q0.len()
    &&& forall|i: int| 0 <= i < q0.len() ==> #[trigger] q1[i] == q0[i] + tail
}

/// Thread-safe device state container: the single source of truth for one
/// device's live data. Every mutation stamps the state and fans a
/// `FullUpdate` notification out to every subscriber, after any
/// field-specific notification the mutation emits itself. The update
/// stamp is a monotonic counter standing in for the wall-clock time of
/// the last update: real time is an outside value, and callers compare
/// stamps, not clocks.
pub struct SharedDeviceState {
    /// Device state
    state: DeviceState,
    /// Is the thread running
    running: bool,
    /// Is the thread paused
    paused: bool,
    /// Stamp of the last update
    last_update: u64,
    /// One pending-notification queue per subscriber
    subscribers: Vec<Vec<StateChangeType>>,
}

impl SharedDeviceState {
    /// The guarded device state, for contracts.
    pub closed spec fn state_spec(self) -> DeviceState {
        self.state
    }

    /// The `running` flag, for contracts.
    pub closed spec fn running_spec(self) -> bool {
        self.running
    }

    /// The `paused` flag, for contracts.
    pub closed spec fn paused_spec(self) -> bool {
        self.paused
    }

    /// The last update stamp, for contracts.
    pub closed spec fn last_update_spec(self) -> u64 {
        self.last_update
    }

    /// The pending notifications of every subscriber, oldest first.
    pub closed spec fn queues(self) -> Seq<Seq<StateChangeType>> {
        self.subscribers@.map_values(|q: Vec<StateChangeType>| q@)
    }

    /// The derived thread status.
    pub open spec fn status_spec(self) -> ThreadStatus {
        status_from_flags(self.running_spec(), self.paused_spec())
    }

    /// Create a new shared device state: a fresh `DeviceState`, not
    /// running, not paused, stamp zero and no subscribers.
    pub fn new(device_info: DeviceInfo, device_data: DeviceData) -> (r: Self)
        ensures
            r.state_spec().is_initial(device_info, device_data),
            !r.running_spec(),
            !r.paused_spec(),
            r.last_update_spec() == 0,
            r.queues() =~= Seq::<Seq<StateChangeType>>::empty(),
    {
        SharedDeviceState {
            state: DeviceState::new(device_info, device_data),
            running: false,
            paused: false,
            last_update: 0,
            subscribers: Vec::new(),
        }
    }

    /// Register one more subscriber and return its identifier. Every
    /// registered subscriber receives every notification sent from then
    /// on; earlier subscriptions stay live.
    pub fn setup_notifications(&mut self) -> (id: usize)
        ensures
            final(self).queues() =~= old(self).queues().push(Seq::<StateChangeType>::empty()),
            id == old(self).queues().len(),
            final(self).state_spec() == old(self).state_spec(),
            final(self).running_spec() == old(self).running_spec(),
            final(self).paused_spec() == old(self).paused_spec(),
            final(self).last_update_spec() == old(self).last_update_spec(),
    {
        let id = self.subscribers.len();
        self.subscribers.push(Vec::new());
        proof {
            assert(self.queues() =~= old(self).queues().push(Seq::<StateChangeType>::empty()));
        }
        id
    }

    /// Append one notification to every subscriber queue.
    fn push_change(&mut self, change: &StateChangeType)
        ensures
            final(self).state_spec() == old(self).state_spec(),
            final(self).running_spec() == old(self).running_spec(),
            final(self).paused_spec() == old(self).paused_spec(),
            final(self).last_update_spec() == old(self).last_update_spec(),
            queues_extended(old(self).queues(), final(self).queues(), seq![*change]),
    {
        let ghost q0 = self.subscribers@.map_values(|q: Vec<StateChangeType>| q@);
        let n = self.subscribers.len();
        let mut i: usize = 0;
        while i < n
            invariant
                i <= n,
                n == self.subscribers@.len(),
                self.state == old(self).state,
                self.running == old(self).running,
                self.paused == old(self).paused,
                self.last_update == old(self).last_update,
                q0 == old(self).queues(),
                q0.len() == n,
                forall|j: int|
                    0 <= j < i ==> #[trigger] self.subscribers@[j]@ == q0[j] + seq![*change],
                forall|j: int| i <= j < n ==> #[trigger] self.subscribers@[j]@ == q0[j],
            decreases n - i,
        {
            let ghost pre = self.subscribers@;
            let c = dup_change(change);
            self.subscribers[i].push(c);
            proof {
                assert forall|j: int|
                    0 <= j < i + 1 implies #[trigger] self.subscribers@[j]@ == q0[j]
                    + seq![*change] by {
                    if j == i {
                        assert(pre[j]@ == q0[j]);
                        assert(self.subscribers@[j]@ =~= q0[j] + seq![*change]);
                    } else {
                        assert(self.subscribers@[j] == pre[j]);
                    }
                }
                assert forall|j: int| i + 1 <= j < n implies #[trigger] self.subscribers@[j]@
                    == q0[j] by {
                    assert(self.subscribers@[j] == pre[j]);
                }
            }
            i += 1;
        }
        proof {
            assert forall|j: int| 0 <= j < q0.len() implies #[trigger] self.queues()[j] == q0[j]
                + seq![*change] by {
                assert(self.queues()[j] == self.subscribers@[j]@);
            }
        }
    }

    /// Advance the update stamp.
    fn bump_stamp(&mut self)
        ensures
            final(self).state_spec() == old(self).state_spec(),
            final(self).running_spec() == old(self).running_spec(),
            final(self).paused_spec() == old(self).paused_spec(),
            final(self).last_update_spec() == next_stamp(old(self).last_update_spec()),
            final(self).queues() == old(self).queues(),
    {
        if self.last_update < 0xFFFF_FFFF_FFFF_FFFFu64 {
            self.last_update = self.last_update + 1;
        }
    }

    /// Get the current thread status, derived from the two flags.
    pub fn status(&self) -> (r: ThreadStatus)
        ensures
            r == self.status_spec(),
    {
        if !self.running {
            ThreadStatus::Stopped
        } else if self.paused {
            ThreadStatus::Paused
        } else {
            ThreadStatus::Running
        }
    }

    /// Set the `running` flag. A `ThreadStatus` notification goes out
    /// exactly when the derived status changes.
    pub fn set_running(&mut self, running: bool)
        ensures
            final(self).running_spec() == running,
            final(self).paused_spec() == old(self).paused_spec(),
            final(self).state_spec() == old(self).state_spec(),
            final(self).last_update_spec() == old(self).last_update_spec(),
            old(self).status_spec() != final(self).status_spec() ==> queues_extended(
                old(self).queues(),
                final(self).queues(),
                seq![StateChangeType::ThreadStatus { status: final(self).status_spec() }],
            ),
            old(self).status_spec() == final(self).status_spec() ==> final(self).queues() == old(self).queues(),
    {
        let old_status = self.status();
        self.running = running;
        let new_status = self.status();
        if old_status != new_status {
            self.push_change(&StateChangeType::ThreadStatus { status: new_status });
        }
    }

    /// Set the `paused` flag. A `ThreadStatus` notification goes out
    /// exactly when the derived status changes.
    pub fn set_paused(&mut self, paused: bool)
        ensures
            final(self).paused_spec() == paused,
            final(self).running_spec() == old(self).running_spec(),
            final(self).state_spec() == old(self).state_spec(),
            final(self).last_update_spec() == old(self).last_update_spec(),
            old(self).status_spec() != final(self).status_spec() ==> queues_extended(
                old(self).queues(),
                final(self).queues(),
                seq![StateChangeType::ThreadStatus { status: final(self).status_spec() }],
            ),
            old(self).status_spec() == final(self).status_spec() ==> final(self).queues() == old(self).queues(),
    {
        let old_status = self.status();
        self.paused = paused;
        let new_status = self.status();
        if old_status != new_status {
            self.push_change(&StateChangeType::ThreadStatus { status: new_status });
        }
    }

    /// Get the last update stamp.
    pub fn last_update(&self) -> (r: u64)
        ensures
            r == self.last_update_spec(),
    {
        self.last_update
    }
}

/// Queues extend themselves by the empty tail.
pub proof fn lemma_queues_extended_refl(q: Seq<Seq<StateChangeType>>)
    ensures
        queues_extended(q, q, Seq::empty()),
{
    assert forall|i: int| 0 <= i < q.len() implies #[trigger] q[i] == q[i] + Seq::<
        StateChangeType,
    >::empty() by {
        assert(q[i] =~= q[i] + Seq::<StateChangeType>::empty());
    }
}

/// Appending `t1` to every queue and then `t2` appends `t1 + t2`.
pub proof fn lemma_queues_extended_trans(
    q0: Seq<Seq<StateChangeType>>,
    q1: Seq<Seq<StateChangeType>>,
    q2: Seq<Seq<StateChangeType>>,
    t1: Seq<StateChangeType>,
    t2: Seq<StateChangeType>,
)
    requires
        queues_extended(q0, q1, t1),
        queues_extended(q1, q2, t2),
    ensures
        queues_extended(q0, q2, t1 + t2),
{
    assert forall|i: int| 0 <= i < q0.len() implies #[trigger] q2[i] == q0[i] + (t1 + t2) by {
        assert(q1[i] == q0[i] + t1);
        assert(q2[i] == q1[i] + t2);
        assert(q2[i] =~= q0[i] + (t1 + t2));
    }
}

/// Every subscriber queue of `q1` is the matching queue of `q0` with a
/// custom-value notification for key text `k` and value text `v`
/// appended, followed by a `FullUpdate`.
pub open spec fn queues_extended_custom(
    q0: Seq<Seq<StateChangeType>>,
    q1: Seq<Seq<StateChangeType>>,
    k: Seq<char>,
    v: Seq<char>,
) -> bool {
    &&& q1.len() == q0.len()
    &&& forall|i: int| 0 <= i < q0.len() ==> #[trigger] q1[i].len() == q0[i].len() + 2
    &&& forall|i: int|
        0 <= i < q0.len() ==> #[trigger] q1[i].take(q0[i].len() as int) == q0[i]
    &&& forall|i: int|
        0 <= i < q0.len() ==> ((#[trigger] q1[i][q0[i].len() as int])
            matches StateChangeType::CustomValue { key, value } && key@ == k && value@ == v)
    &&& forall|i: int|
        0 <= i < q0.len() ==> #[trigger] q1[i].last() == StateChangeType::FullUpdate
}

/// The pin value after a digital output write: the output request and
/// the input mirror both take the value.
pub open spec fn pin_with_digital(p: PinData, value: bool) -> PinData {
    PinData {
        digital_counter_value: p.digital_counter_value,
        analog_value: p.analog_value,
        pin_function: p.pin_function,
        digital_value_get: if value { 1u8 } else { 0u8 },
        digital_value_set: if value { 1u8 } else { 0u8 },
    }
}

/// The pin value after an analog output write.
pub open spec fn pin_with_analog(p: PinData, value: u32) -> PinData {
    PinData {
        digital_counter_value: p.digital_counter_value,
        analog_value: value,
        pin_function: p.pin_function,
        digital_value_get: p.digital_value_get,
        digital_value_set: p.digital_value_set,
    }
}

/// All fields of the two states agree except possibly the error message.
pub open spec fn same_except_error(a: DeviceState, b: DeviceState) -> bool {
    &&& a.device_info == b.device_info
    &&& a.device_data == b.device_data
    &&& a.model == b.model
    &&& a.pins == b.pins
    &&& a.encoders == b.encoders
    &&& a.pwm == b.pwm
    &&& a.last_update == b.last_update
    &&& a.status == b.status
    &&& a.custom_values == b.custom_values
}

/// All fields of the two states agree except possibly the model.
pub open spec fn same_except_model(a: DeviceState, b: DeviceState) -> bool {
    &&& a.device_info == b.device_info
    &&& a.device_data == b.device_data
    &&& a.pins == b.pins
    &&& a.encoders == b.encoders
    &&& a.pwm == b.pwm
    &&& a.last_update == b.last_update
    &&& a.status == b.status
    &&& a.error_message == b.error_message
    &&& a.custom_values == b.custom_values
}

/// All fields of the two states agree except possibly the pin array.
pub open spec fn same_except_pins(a: DeviceState, b: DeviceState) -> bool {
    &&& a.device_info == b.device_info
    &&& a.device_data == b.device_data
    &&& a.model == b.model
    &&& a.encoders == b.encoders
    &&& a.pwm == b.pwm
    &&& a.last_update == b.last_update
    &&& a.status == b.status
    &&& a.error_message == b.error_message
    &&& a.custom_values == b.custom_values
}

/// All fields of the two states agree except possibly the PWM block.
pub open spec fn same_except_pwm(a: DeviceState, b: DeviceState) -> bool {
    &&& a.device_info == b.device_info
    &&& a.device_data == b.device_data
    &&& a.model == b.model
    &&& a.pins == b.pins
    &&& a.encoders == b.encoders
    &&& a.last_update == b.last_update
    &&& a.status == b.status
    &&& a.error_message == b.error_message
    &&& a.custom_values == b.custom_values
}

/// All fields of the two states agree except possibly the custom values.
pub open spec fn same_except_custom(a: DeviceState, b: DeviceState) -> bool {
    &&& a.device_info == b.device_info
    &&& a.device_data == b.device_data
    &&& a.model == b.model
    &&& a.pins == b.pins
    &&& a.encoders == b.encoders
    &&& a.pwm == b.pwm
    &&& a.last_update == b.last_update
    &&& a.status == b.status
    &&& a.error_message == b.error_message
}

/// Character-for-character string equality.
pub fn str_eq(a: &str, b: &str) -> (r: bool)
    ensures
        r == (a@ == b@),
{
    let n = a.unicode_len();
    if n != b.unicode_len() {
        return false;
    }
    let mut i: usize = 0;
    while i < n
        invariant
            i <= n,
            n == a@.len(),
            n == b@.len(),
            forall|j: int| 0 <= j < i ==> a@[j] == b@[j],
        decreases n - i,
    {
        if a.get_char(i) != b.get_char(i) {
            return false;
        }
        i += 1;
    }
    proof {
        assert(a@ =~= b@);
    }
    true
}

impl SharedDeviceState {
    /// Run a read-only accessor under the state lock and hand its result
    /// back.
    pub fn read<T, F: FnOnce(&DeviceState) -> T>(&self, read_fn: F) -> (r: T)
        requires
            call_requires(read_fn, (&self.state_spec(),)),
        ensures
            call_ensures(read_fn, (&self.state_spec(),), r),
    {
        read_fn(&self.state)
    }

    /// Access the device state with a function; same as `read`.
    pub fn with_state<F, T>(&self, f: F) -> (r: T) where F: FnOnce(&DeviceState) -> T
        requires
            call_requires(f, (&self.state_spec(),)),
        ensures
            call_ensures(f, (&self.state_spec(),), r),
    {
        f(&self.state)
    }

    /// Replace the guarded state by what the update function returns,
    /// advance the stamp, and send exactly one `FullUpdate` notification
    /// to every subscriber.
    pub fn update<F: FnOnce(&DeviceState) -> DeviceState>(&mut self, update_fn: F)
        requires
            call_requires(update_fn, (&old(self).state_spec(),)),
        ensures
            call_ensures(update_fn, (&old(self).state_spec(),), final(self).state_spec()),
            final(self).running_spec() == old(self).running_spec(),
            final(self).paused_spec() == old(self).paused_spec(),
            final(self).last_update_spec() == next_stamp(old(self).last_update_spec()),
            queues_extended(
                old(self).queues(),
                final(self).queues(),
                seq![StateChangeType::FullUpdate],
            ),
    {
        let new_state = update_fn(&self.state);
        self.state = new_state;
        self.bump_stamp();
        self.push_change(&StateChangeType::FullUpdate);
    }

    /// A field-for-field copy of the guarded state, taken under the lock.
    pub fn get_state(&self) -> (r: DeviceState)
        ensures
            state_eq(r, self.state_spec()),
    {
        self.state.snapshot()
    }

    /// Get a digital input value, absent for an invalid pin number.
    pub fn get_digital_input(&self, pin: u32) -> (r: Option<bool>)
        ensures
            r is Some <==> self.state_spec().valid_pin(pin),
            r matches Some(v) ==> v == self.state_spec().digital_input_spec(pin),
    {
        self.state.get_digital_input(pin)
    }

    /// Get an analog input value, absent for an invalid pin number.
    pub fn get_analog_input(&self, pin: u32) -> (r: Option<u32>)
        ensures
            r is Some <==> self.state_spec().valid_pin(pin),
            r matches Some(v) ==> v == self.state_spec().analog_input_spec(pin),
    {
        self.state.get_analog_input(pin)
    }

    /// Get an encoder value, absent for an invalid encoder index.
    pub fn get_encoder_value(&self, encoder_index: u32) -> (r: Option<i32>)
        ensures
            r is Some <==> self.state_spec().valid_encoder(encoder_index),
            r matches Some(v) ==> v == self.state_spec().encoder_value_spec(encoder_index),
    {
        self.state.get_encoder_value(encoder_index)
    }

    /// Get a PWM duty cycle, absent for an invalid channel.
    pub fn get_pwm_duty_cycle(&self, channel: usize) -> (r: Option<u32>)
        ensures
            r is Some <==> self.state_spec().valid_pwm_channel(channel),
            r matches Some(v) ==> v == self.state_spec().pwm_duty_spec(channel),
    {
        self.state.get_pwm_duty_cycle(channel)
    }

    /// Set a digital output. For a valid pin the output request and the
    /// input mirror both take the value — the optimistic local echo that
    /// a loopback transport would confirm — and a `DigitalOutput`
    /// notification goes out; the next hardware sync may overwrite the
    /// mirror. For an invalid pin the state is left alone. Either way
    /// the stamp advances and one `FullUpdate` goes out.
    pub fn set_digital_output(&mut self, pin: u32, value: bool)
        ensures
            final(self).running_spec() == old(self).running_spec(),
            final(self).paused_spec() == old(self).paused_spec(),
            final(self).last_update_spec() == next_stamp(old(self).last_update_spec()),
            old(self).state_spec().valid_pin(pin) ==> same_except_pins(
                old(self).state_spec(),
                final(self).state_spec(),
            ),
            old(self).state_spec().valid_pin(pin) ==> final(self).state_spec().pins@
                =~= old(self).state_spec().pins@.update(
                pin - 1,
                pin_with_digital(old(self).state_spec().pins@[pin - 1], value),
            ),
            old(self).state_spec().valid_pin(pin) ==> final(self).state_spec().digital_input_spec(
                pin,
            ) == value,
            old(self).state_spec().valid_pin(pin) ==> queues_extended(
                old(self).queues(),
                final(self).queues(),
                seq![StateChangeType::DigitalOutput { pin, value }, StateChangeType::FullUpdate],
            ),
            !old(self).state_spec().valid_pin(pin) ==> final(self).state_spec() == old(self).state_spec(),
            !old(self).state_spec().valid_pin(pin) ==> queues_extended(
                old(self).queues(),
                final(self).queues(),
                seq![StateChangeType::FullUpdate],
            ),
    {
        let ghost q0 = self.queues();
        if pin > 0 && (pin as usize) <= self.state.pins.len() {
            let idx = (pin - 1) as usize;
            let b: u8 = if value {
                1
            } else {
                0
            };
            let mut p = self.state.pins[idx];
            p.digital_value_set = b;
            p.digital_value_get = b;
            self.state.pins[idx] = p;
            self.push_change(&StateChangeType::DigitalOutput { pin, value });
            let ghost q1 = self.queues();
            self.bump_stamp();
            self.push_change(&StateChangeType::FullUpdate);
            proof {
                lemma_queues_extended_trans(
                    q0,
                    q1,
                    self.queues(),
                    seq![StateChangeType::DigitalOutput { pin, value }],
                    seq![StateChangeType::FullUpdate],
                );
                assert(seq![StateChangeType::DigitalOutput { pin, value }]
                    + seq![StateChangeType::FullUpdate] =~= seq![
                    StateChangeType::DigitalOutput { pin, value },
                    StateChangeType::FullUpdate,
                ]);
            }
        } else {
            self.bump_stamp();
            self.push_change(&StateChangeType::FullUpdate);
        }
    }

    /// Set an analog output. For a valid pin the analog value is written
    /// and an `AnalogOutput` notification goes out; for an invalid pin
    /// the state is left alone. Either way the stamp advances and one
    /// `FullUpdate` goes out.
    pub fn set_analog_output(&mut self, pin: u32, value: u32)
        ensures
            final(self).running_spec() == old(self).running_spec(),
            final(self).paused_spec() == old(self).paused_spec(),
            final(self).last_update_spec() == next_stamp(old(self).last_update_spec()),
            old(self).state_spec().valid_pin(pin) ==> same_except_pins(
                old(self).state_spec(),
                final(self).state_spec(),
            ),
            old(self).state_spec().valid_pin(pin) ==> final(self).state_spec().pins@
                =~= old(self).state_spec().pins@.update(
                pin - 1,
                pin_with_analog(old(self).state_spec().pins@[pin - 1], value),
            ),
            old(self).state_spec().valid_pin(pin) ==> final(self).state_spec().analog_input_spec(
                pin,
            ) == value,
            old(self).state_spec().valid_pin(pin) ==> queues_extended(
                old(self).queues(),
                final(self).queues(),
                seq![StateChangeType::AnalogOutput { pin, value }, StateChangeType::FullUpdate],
            ),
            !old(self).state_spec().valid_pin(pin) ==> final(self).state_spec() == old(self).state_spec(),
            !old(self).state_spec().valid_pin(pin) ==> queues_extended(
                old(self).queues(),
                final(self).queues(),
                seq![StateChangeType::FullUpdate],
            ),
    {
        let ghost q0 = self.queues();
        if pin > 0 && (pin as usize) <= self.state.pins.len() {
            let idx = (pin - 1) as usize;
            let mut p = self.state.pins[idx];
            p.analog_value = value;
            self.state.pins[idx] = p;
            self.push_change(&StateChangeType::AnalogOutput { pin, value });
            let ghost q1 = self.queues();
            self.bump_stamp();
            self.push_change(&StateChangeType::FullUpdate);
            proof {
                lemma_queues_extended_trans(
                    q0,
                    q1,
                    self.queues(),
                    seq![StateChangeType::AnalogOutput { pin, value }],
                    seq![StateChangeType::FullUpdate],
                );
                assert(seq![StateChangeType::AnalogOutput { pin, value }]
                    + seq![StateChangeType::FullUpdate] =~= seq![
                    StateChangeType::AnalogOutput { pin, value },
                    StateChangeType::FullUpdate,
                ]);
            }
        } else {
            self.bump_stamp();
            self.push_change(&StateChangeType::FullUpdate);
        }
    }

    /// Set a PWM duty cycle. For a valid channel the duty value is
    /// written and a `PwmDutyCycle` notification goes out — also when
    /// the written value equals the previous one: the setter does not
    /// compare. For an invalid channel the state is left alone. Either
    /// way the stamp advances and one `FullUpdate` goes out.
    pub fn set_pwm_duty_cycle(&mut self, channel: usize, duty: u32)
        ensures
            final(self).running_spec() == old(self).running_spec(),
            final(self).paused_spec() == old(self).paused_spec(),
            final(self).last_update_spec() == next_stamp(old(self).last_update_spec()),
            old(self).state_spec().valid_pwm_channel(channel) ==> same_except_pwm(
                old(self).state_spec(),
                final(self).state_spec(),
            ),
            old(self).state_spec().valid_pwm_channel(channel) ==> final(self).state_spec().pwm.pwm_values@ =~= old(self).state_spec().pwm.pwm_values@.update(
                channel as int,
                duty,
            ),
            old(self).state_spec().valid_pwm_channel(channel) ==> final(self).state_spec().pwm.pwm_period == old(self).state_spec().pwm.pwm_period,
            old(self).state_spec().valid_pwm_channel(channel) ==> final(self).state_spec().pwm.enabled_channels == old(self).state_spec().pwm.enabled_channels,
            old(self).state_spec().valid_pwm_channel(channel) ==> final(self).state_spec().pwm_duty_spec(channel) == duty,
            old(self).state_spec().valid_pwm_channel(channel) ==> queues_extended(
                old(self).queues(),
                final(self).queues(),
                seq![StateChangeType::PwmDutyCycle { channel, duty }, StateChangeType::FullUpdate],
            ),
            !old(self).state_spec().valid_pwm_channel(channel) ==> final(self).state_spec() == old(self).state_spec(),
            !old(self).state_spec().valid_pwm_channel(channel) ==> queues_extended(
                old(self).queues(),
                final(self).queues(),
                seq![StateChangeType::FullUpdate],
            ),
    {
        let ghost q0 = self.queues();
        if channel < 6 {
            self.state.pwm.pwm_values[channel] = duty;
            self.push_change(&StateChangeType::PwmDutyCycle { channel, duty });
            let ghost q1 = self.queues();
            self.bump_stamp();
            self.push_change(&StateChangeType::FullUpdate);
            proof {
                lemma_queues_extended_trans(
                    q0,
                    q1,
                    self.queues(),
                    seq![StateChangeType::PwmDutyCycle { channel, duty }],
                    seq![StateChangeType::FullUpdate],
                );
                assert(seq![StateChangeType::PwmDutyCycle { channel, duty }]
                    + seq![StateChangeType::FullUpdate] =~= seq![
                    StateChangeType::PwmDutyCycle { channel, duty },
                    StateChangeType::FullUpdate,
                ]);
            }
        } else {
            self.bump_stamp();
            self.push_change(&StateChangeType::FullUpdate);
        }
    }

    /// Set the error annotation and send an `Error` notification with
    /// the same message, then advance the stamp and send one
    /// `FullUpdate`. Passing an absent message clears the error.
    pub fn set_error(&mut self, error: Option<String>)
        ensures
            final(self).running_spec() == old(self).running_spec(),
            final(self).paused_spec() == old(self).paused_spec(),
            final(self).last_update_spec() == next_stamp(old(self).last_update_spec()),
            final(self).state_spec().error_message == error,
            same_except_error(old(self).state_spec(), final(self).state_spec()),
            queues_extended(
                old(self).queues(),
                final(self).queues(),
                seq![StateChangeType::Error { message: error }, StateChangeType::FullUpdate],
            ),
    {
        let ghost q0 = self.queues();
        self.state.error_message = dup_string_opt(&error);
        self.push_change(&StateChangeType::Error { message: error });
        let ghost q1 = self.queues();
        self.bump_stamp();
        self.push_change(&StateChangeType::FullUpdate);
        proof {
            lemma_queues_extended_trans(
                q0,
                q1,
                self.queues(),
                seq![StateChangeType::Error { message: error }],
                seq![StateChangeType::FullUpdate],
            );
            assert(seq![StateChangeType::Error { message: error }]
                + seq![StateChangeType::FullUpdate] =~= seq![
                StateChangeType::Error { message: error },
                StateChangeType::FullUpdate,
            ]);
        }
    }

    /// Record an error message without an `Error` notification: the path
    /// the worker takes when a hardware call fails. The stamp advances
    /// and one `FullUpdate` goes out.
    pub fn record_error(&mut self, message: String)
        ensures
            final(self).running_spec() == old(self).running_spec(),
            final(self).paused_spec() == old(self).paused_spec(),
            final(self).last_update_spec() == next_stamp(old(self).last_update_spec()),
            final(self).state_spec().error_message == Some(message),
            same_except_error(old(self).state_spec(), final(self).state_spec()),
            queues_extended(
                old(self).queues(),
                final(self).queues(),
                seq![StateChangeType::FullUpdate],
            ),
    {
        self.state.error_message = Option::Some(message);
        self.bump_stamp();
        self.push_change(&StateChangeType::FullUpdate);
    }

    /// Get the error annotation.
    pub fn get_error(&self) -> (r: Option<String>)
        ensures
            r == self.state_spec().error_message,
    {
        dup_string_opt(&self.state.error_message)
    }

    /// Attach a model descriptor to the state. The stamp advances and
    /// one `FullUpdate` goes out.
    pub fn set_model(&mut self, model: DeviceModel)
        ensures
            final(self).running_spec() == old(self).running_spec(),
            final(self).paused_spec() == old(self).paused_spec(),
            final(self).last_update_spec() == next_stamp(old(self).last_update_spec()),
            final(self).state_spec().model == Some(model),
            same_except_model(old(self).state_spec(), final(self).state_spec()),
            queues_extended(
                old(self).queues(),
                final(self).queues(),
                seq![StateChangeType::FullUpdate],
            ),
    {
        self.state.model = Option::Some(model);
        self.bump_stamp();
        self.push_change(&StateChangeType::FullUpdate);
    }

    /// Bind a custom value to a key, replacing any previous binding, and
    /// send a `CustomValue` notification; then advance the stamp and
    /// send one `FullUpdate`.
    pub fn set_custom_value(&mut self, key: &str, value: &str)
        ensures
            final(self).running_spec() == old(self).running_spec(),
            final(self).paused_spec() == old(self).paused_spec(),
            final(self).last_update_spec() == next_stamp(old(self).last_update_spec()),
            same_except_custom(old(self).state_spec(), final(self).state_spec()),
            kv_lookup(final(self).state_spec().custom_values@, key@) == Some(value@),
            forall|k2: Seq<char>|
                k2 != key@ ==> #[trigger] kv_lookup(final(self).state_spec().custom_values@, k2)
                    == kv_lookup(old(self).state_spec().custom_values@, k2),
            queues_extended_custom(old(self).queues(), final(self).queues(), key@, value@),
    {
        let ghost s0 = self.state.custom_values@;
        let n = self.state.custom_values.len();
        let mut i: usize = 0;
        let mut idx: usize = 0;
        let mut found = false;
        while i < n
            invariant
                i <= n,
                n == self.state.custom_values@.len(),
                !found ==> forall|j: int| 0 <= j < i ==> s0[j].0@ != key@,
                found ==> idx < i && s0[idx as int].0@ == key@ && (forall|j: int|
                    0 <= j < idx ==> s0[j].0@ != key@),
                s0 == self.state.custom_values@,
                self == old(self),
            decreases n - i,
        {
            if !found && str_eq(self.state.custom_values[i].0.as_str(), key) {
                found = true;
                idx = i;
            }
            i += 1;
        }
        if found {
            let new_value = value.to_owned();
            let ghost p = (self.state.custom_values@[idx as int].0, new_value);
            self.state.custom_values[idx].1 = new_value;
            proof {
                assert(self.state.custom_values@ =~= s0.update(idx as int, p));
                lemma_kv_lookup_update(s0, idx as int, p, key@);
            }
        } else {
            let entry = (key.to_owned(), value.to_owned());
            let ghost p = entry;
            self.state.custom_values.push(entry);
            proof {
                lemma_kv_lookup_skip(s0, key@, s0.len() as int);
                assert(s0.skip(s0.len() as int) =~= Seq::<(String, String)>::empty());
                lemma_kv_lookup_push(s0, p);
            }
        }
        let ghost q0 = self.queues();
        let note = StateChangeType::CustomValue { key: key.to_owned(), value: value.to_owned() };
        let ghost gnote = note;
        self.push_change(&note);
        let ghost q1 = self.queues();
        self.bump_stamp();
        self.push_change(&StateChangeType::FullUpdate);
        proof {
            lemma_queues_extended_trans(
                q0,
                q1,
                self.queues(),
                seq![gnote],
                seq![StateChangeType::FullUpdate],
            );
            let tail = seq![gnote] + seq![StateChangeType::FullUpdate];
            assert(tail.len() == 2);
            assert(tail[0] == gnote);
            assert(tail[1] == StateChangeType::FullUpdate);
            let q2 = self.queues();
            assert forall|j: int| 0 <= j < q0.len() implies #[trigger] q2[j].take(q0[j].len() as int)
                == q0[j] by {
                assert(q2[j] == q0[j] + tail);
                assert(q2[j].take(q0[j].len() as int) =~= q0[j]);
            }
            assert forall|j: int| 0 <= j < q0.len() implies ((#[trigger] q2[j][q0[j].len() as int])
                matches StateChangeType::CustomValue { key: kk, value: vv } && kk@ == key@ && vv@
                == value@) by {
                assert(q2[j] == q0[j] + tail);
                assert(q2[j][q0[j].len() as int] == gnote);
            }
            assert forall|j: int| 0 <= j < q0.len() implies #[trigger] q2[j].last()
                == StateChangeType::FullUpdate by {
                assert(q2[j] == q0[j] + tail);
            }
        }
    }

    /// Get the custom value bound to a key, absent when the key has no
    /// binding.
    pub fn get_custom_value(&self, key: &str) -> (r: Option<String>)
        ensures
            r is Some <==> kv_lookup(self.state_spec().custom_values@, key@) is Some,
            r matches Some(v) ==> kv_lookup(self.state_spec().custom_values@, key@) == Some(v@),
    {
        let ghost s0 = self.state.custom_values@;
        let n = self.state.custom_values.len();
        let mut i: usize = 0;
        while i < n
            invariant
                i <= n,
                n == self.state.custom_values@.len(),
                s0 == self.state.custom_values@,
                forall|j: int| 0 <= j < i ==> s0[j].0@ != key@,
            decreases n - i,
        {
            if str_eq(self.state.custom_values[i].0.as_str(), key) {
                proof {
                    lemma_kv_lookup_skip(s0, key@, i as int);
                    assert(s0.skip(i as int)[0] == s0[i as int]);
                }
                return Option::Some(self.state.custom_values[i].1.clone());
            }
            i += 1;
        }
        proof {
            lemma_kv_lookup_skip(s0, key@, n as int);
            assert(s0.skip(n as int) =~= Seq::<(String, String)>::empty());
        }
        Option::None
    }
}


/// The smaller of two sequence lengths, as the number of positions a
/// read-and-diff compares.
pub open spec fn diff_len(a: nat, b: nat) -> int {
    if a <= b {
        a as int
    } else {
        b as int
    }
}

/// The notifications a refresh emits for one pin position: a
/// `DigitalInput`, `DigitalOutput` and `AnalogInput` change, each exactly
/// when the corresponding field differs, in that order.
pub open spec fn pin_change_seq(oldp: PinData, newp: PinData, pin: u32) -> Seq<StateChangeType> {
    (if oldp.digital_value_get != newp.digital_value_get {
        seq![StateChangeType::DigitalInput { pin, value: newp.digital_value_get != 0 }]
    } else {
        Seq::empty()
    }) + (if oldp.digital_value_set != newp.digital_value_set {
        seq![StateChangeType::DigitalOutput { pin, value: newp.digital_value_set != 0 }]
    } else {
        Seq::empty()
    }) + (if oldp.analog_value != newp.analog_value {
        seq![StateChangeType::AnalogInput { pin, value: newp.analog_value }]
    } else {
        Seq::empty()
    })
}

/// The pin-change notifications from position `i` on, comparing old and
/// new pin arrays position by position; pin numbers are 1-based.
pub open spec fn pins_diff_from(olds: Seq<PinData>, news: Seq<PinData>, i: int) -> Seq<
    StateChangeType,
>
    decreases diff_len(olds.len(), news.len()) - i,
{
    if i < 0 || i >= diff_len(olds.len(), news.len()) {
        Seq::empty()
    } else {
        pin_change_seq(olds[i], news[i], (i + 1) as u32) + pins_diff_from(olds, news, i + 1)
    }
}

/// The encoder-change notifications from position `i` on: an
/// `EncoderValue` change exactly where the value differs.
pub open spec fn encoders_diff_from(olds: Seq<EncoderData>, news: Seq<EncoderData>, i: int) -> Seq<
    StateChangeType,
>
    decreases diff_len(olds.len(), news.len()) - i,
{
    if i < 0 || i >= diff_len(olds.len(), news.len()) {
        Seq::empty()
    } else {
        (if olds[i].encoder_value != news[i].encoder_value {
            seq![
                StateChangeType::EncoderValue { index: i as u32, value: news[i].encoder_value },
            ]
        } else {
            Seq::empty()
        }) + encoders_diff_from(olds, news, i + 1)
    }
}

/// The PWM-change notifications from channel `i` on: a `PwmDutyCycle`
/// change exactly where the duty differs.
pub open spec fn pwm_diff_from(olds: Seq<u32>, news: Seq<u32>, i: int) -> Seq<StateChangeType>
    decreases diff_len(olds.len(), news.len()) - i,
{
    if i < 0 || i >= diff_len(olds.len(), news.len()) {
        Seq::empty()
    } else {
        (if olds[i] != news[i] {
            seq![StateChangeType::PwmDutyCycle { channel: i as usize, duty: news[i] }]
        } else {
            Seq::empty()
        }) + pwm_diff_from(olds, news, i + 1)
    }
}

/// Every field-specific notification a refresh emits when the state held
/// `old_state` and the hardware reported `snap`: pin changes, then
/// encoder changes, then PWM changes.
pub open spec fn full_diff_seq(old_state: DeviceState, snap: DeviceSnapshot) -> Seq<
    StateChangeType,
> {
    pins_diff_from(old_state.pins@, snap.pins@, 0) + encoders_diff_from(
        old_state.encoders@,
        snap.encoders@,
        0,
    ) + pwm_diff_from(old_state.pwm.pwm_values@, snap.pwm.pwm_values@, 0)
}

/// Compute the field-specific notifications of a refresh, in emission
/// order.
fn compute_diffs(state: &DeviceState, snap: &DeviceSnapshot) -> (r: Vec<StateChangeType>)
    requires
        snap.pins@.len() <= 0xFFFF_FFFF,
        snap.encoders@.len() <= 0xFFFF_FFFF,
    ensures
        r@ == full_diff_seq(*state, *snap),
{
    let mut r: Vec<StateChangeType> = Vec::new();
    let ghost olds = state.pins@;
    let ghost news = snap.pins@;
    let pn = if state.pins.len() <= snap.pins.len() {
        state.pins.len()
    } else {
        snap.pins.len()
    };
    let mut i: usize = 0;
    while i < pn
        invariant
            i <= pn,
            pn == diff_len(olds.len(), news.len()),
            olds == state.pins@,
            news == snap.pins@,
            news.len() <= 0xFFFF_FFFF,
            r@ + pins_diff_from(olds, news, i as int) =~= pins_diff_from(olds, news, 0),
        decreases pn - i,
    {
        let ghost r0 = r@;
        let oldp = state.pins[i];
        let newp = snap.pins[i];
        let pin = (i + 1) as u32;
        if oldp.digital_value_get != newp.digital_value_get {
            r.push(StateChangeType::DigitalInput { pin, value: newp.digital_value_get != 0 });
        }
        if oldp.digital_value_set != newp.digital_value_set {
            r.push(StateChangeType::DigitalOutput { pin, value: newp.digital_value_set != 0 });
        }
        if oldp.analog_value != newp.analog_value {
            r.push(StateChangeType::AnalogInput { pin, value: newp.analog_value });
        }
        proof {
            assert(r@ =~= r0 + pin_change_seq(oldp, newp, pin));
            assert(pins_diff_from(olds, news, i as int) == pin_change_seq(oldp, newp, pin)
                + pins_diff_from(olds, news, i + 1));
            assert(r@ + pins_diff_from(olds, news, i + 1) =~= r0 + pins_diff_from(
                olds,
                news,
                i as int,
            ));
        }
        i += 1;
    }
    proof {
        assert(pins_diff_from(olds, news, pn as int) =~= Seq::<StateChangeType>::empty());
        assert(r@ =~= pins_diff_from(olds, news, 0));
    }
    let ghost base1 = r@;
    let ghost eolds = state.encoders@;
    let ghost enews = snap.encoders@;
    let en = if state.encoders.len() <= snap.encoders.len() {
        state.encoders.len()
    } else {
        snap.encoders.len()
    };
    let mut j: usize = 0;
    while j < en
        invariant
            j <= en,
            en == diff_len(eolds.len(), enews.len()),
            eolds == state.encoders@,
            enews == snap.encoders@,
            enews.len() <= 0xFFFF_FFFF,
            r@ + encoders_diff_from(eolds, enews, j as int) =~= base1 + encoders_diff_from(
                eolds,
                enews,
                0,
            ),
        decreases en - j,
    {
        let ghost r0 = r@;
        if state.encoders[j].encoder_value != snap.encoders[j].encoder_value {
            r.push(
                StateChangeType::EncoderValue {
                    index: j as u32,
                    value: snap.encoders[j].encoder_value,
                },
            );
        }
        proof {
            assert(r@ + encoders_diff_from(eolds, enews, j + 1) =~= r0 + encoders_diff_from(
                eolds,
                enews,
                j as int,
            ));
        }
        j += 1;
    }
    proof {
        assert(encoders_diff_from(eolds, enews, en as int) =~= Seq::<StateChangeType>::empty());
        assert(r@ =~= base1 + encoders_diff_from(eolds, enews, 0));
    }
    let ghost base2 = r@;
    let ghost wolds = state.pwm.pwm_values@;
    let ghost wnews = snap.pwm.pwm_values@;
    let mut k: usize = 0;
    while k < 6
        invariant
            k <= 6,
            wolds == state.pwm.pwm_values@,
            wnews == snap.pwm.pwm_values@,
            r@ + pwm_diff_from(wolds, wnews, k as int) =~= base2 + pwm_diff_from(wolds, wnews, 0),
        decreases 6 - k,
    {
        let ghost r0 = r@;
        if state.pwm.pwm_values[k] != snap.pwm.pwm_values[k] {
            r.push(
                StateChangeType::PwmDutyCycle { channel: k, duty: snap.pwm.pwm_values[k] },
            );
        }
        proof {
            assert(r@ + pwm_diff_from(wolds, wnews, k + 1) =~= r0 + pwm_diff_from(
                wolds,
                wnews,
                k as int,
            ));
        }
        k += 1;
    }
    proof {
        assert(pwm_diff_from(wolds, wnews, 6) =~= Seq::<StateChangeType>::empty());
        assert(r@ =~= full_diff_seq(*state, *snap));
    }
    r
}

impl SharedDeviceState {
    /// Perform the full read-and-diff of a hardware refresh: take over
    /// the snapshot, stamp the state, and send to every subscriber one
    /// `FullUpdate` followed by one notification per changed pin,
    /// encoder and PWM field.
    pub fn update_from_device_with_notifications(&mut self, snap: &DeviceSnapshot)
        requires
            snap.pins@.len() <= 0xFFFF_FFFF,
            snap.encoders@.len() <= 0xFFFF_FFFF,
        ensures
            final(self).state_spec().device_info == snap.device_info,
            final(self).state_spec().device_data == snap.device_data,
            final(self).state_spec().model == snap.model,
            final(self).state_spec().pins@ == snap.pins@,
            final(self).state_spec().encoders@ == snap.encoders@,
            final(self).state_spec().pwm == snap.pwm,
            final(self).state_spec().last_update == next_stamp(old(self).last_update_spec()),
            final(self).state_spec().status == old(self).state_spec().status,
            final(self).state_spec().error_message == old(self).state_spec().error_message,
            final(self).state_spec().custom_values == old(self).state_spec().custom_values,
            final(self).running_spec() == old(self).running_spec(),
            final(self).paused_spec() == old(self).paused_spec(),
            final(self).last_update_spec() == next_stamp(old(self).last_update_spec()),
            queues_extended(
                old(self).queues(),
                final(self).queues(),
                seq![StateChangeType::FullUpdate] + full_diff_seq(old(self).state_spec(), *snap),
            ),
    {
        let ghost q0 = self.queues();
        let ghost diff = full_diff_seq(self.state, *snap);
        let diffs = compute_diffs(&self.state, snap);
        self.bump_stamp();
        let stamp = self.last_update();
        self.state.update_from_device(snap, stamp);
        self.push_change(&StateChangeType::FullUpdate);
        let ghost q1 = self.queues();
        proof {
            assert(queues_extended(q0, q1, seq![StateChangeType::FullUpdate]));
        }
        let m = diffs.len();
        let mut i: usize = 0;
        while i < m
            invariant
                i <= m,
                m == diffs@.len(),
                diffs@ == diff,
                self.running == old(self).running,
                self.paused == old(self).paused,
                self.last_update == next_stamp(old(self).last_update_spec()),
                self.state.device_info == snap.device_info,
                self.state.device_data == snap.device_data,
                self.state.model == snap.model,
                self.state.pins@ == snap.pins@,
                self.state.encoders@ == snap.encoders@,
                self.state.pwm == snap.pwm,
                self.state.last_update == next_stamp(old(self).last_update_spec()),
                self.state.status == old(self).state_spec().status,
                self.state.error_message == old(self).state_spec().error_message,
                self.state.custom_values == old(self).state_spec().custom_values,
                queues_extended(q1, self.queues(), diff.take(i as int)),
            decreases m - i,
        {
            let ghost qa = self.queues();
            self.push_change(&diffs[i]);
            proof {
                lemma_queues_extended_trans(
                    q1,
                    qa,
                    self.queues(),
                    diff.take(i as int),
                    seq![diff[i as int]],
                );
                assert(diff.take(i as int) + seq![diff[i as int]] =~= diff.take(i + 1));
            }
            i += 1;
        }
        proof {
            assert(diff.take(m as int) =~= diff);
            lemma_queues_extended_trans(
                q0,
                q1,
                self.queues(),
                seq![StateChangeType::FullUpdate],
                diff,
            );
        }
    }
}


/// The status table, row by row: the derived status is `Stopped` whenever
/// the thread is not running, `Paused` when running and paused, and
/// `Running` when running and not paused.
pub proof fn lemma_status_table()
    ensures
        status_from_flags(false, false) == ThreadStatus::Stopped,
        status_from_flags(false, true) == ThreadStatus::Stopped,
        status_from_flags(true, true) == ThreadStatus::Paused,
        status_from_flags(true, false) == ThreadStatus::Running,
        forall|running: bool, paused: bool|
            #[trigger] status_from_flags(running, paused) != ThreadStatus::Error,
{
}

/// The derived status is a pure function of the two flags: any two
/// container states with equal `running` and `paused` flags derive the
/// same status, whatever else differs and however the flags were reached.
pub proof fn lemma_status_is_function_of_flags(s1: SharedDeviceState, s2: SharedDeviceState)
    requires
        s1.running_spec() == s2.running_spec(),
        s1.paused_spec() == s2.paused_spec(),
    ensures
        s1.status_spec() == s2.status_spec(),
{
}

/// A digital output write followed by a read reflects the written value:
/// for every valid pin, a state whose pin array took the write holds that
/// value as the pin's digital input.
pub proof fn lemma_set_then_get_digital(
    pre: SharedDeviceState,
    post: SharedDeviceState,
    pin: u32,
    value: bool,
)
    requires
        pre.state_spec().valid_pin(pin),
        post.state_spec().pins@ == pre.state_spec().pins@.update(
            pin - 1,
            pin_with_digital(pre.state_spec().pins@[pin - 1], value),
        ),
    ensures
        post.state_spec().valid_pin(pin),
        post.state_spec().digital_input_spec(pin) == value,
{
}

/// How many `FullUpdate` notifications a queue holds.
pub open spec fn count_full_updates(s: Seq<StateChangeType>) -> nat
    decreases s.len(),
{
    if s.len() == 0 {
        0
    } else {
        count_full_updates(s.drop_last()) + (if s.last() is FullUpdate {
            1nat
        } else {
            0nat
        })
    }
}

/// Appending a tail adds that tail's `FullUpdate` count.
pub proof fn lemma_count_full_updates_add(a: Seq<StateChangeType>, b: Seq<StateChangeType>)
    ensures
        count_full_updates(a + b) == count_full_updates(a) + count_full_updates(b),
    decreases b.len(),
{
    if b.len() == 0 {
        assert(a + b =~= a);
    } else {
        lemma_count_full_updates_add(a, b.drop_last());
        assert((a + b).drop_last() =~= a + b.drop_last());
        assert((a + b).last() == b.last());
    }
}

/// An update emits exactly one `FullUpdate` to every subscriber,
/// independent of any field-specific notification also emitted: whenever
/// the queues were extended by one `FullUpdate` and a tail free of
/// `FullUpdate`, each queue's `FullUpdate` count grows by exactly one.
pub proof fn lemma_update_emits_one_full_update(
    q0: Seq<Seq<StateChangeType>>,
    q1: Seq<Seq<StateChangeType>>,
    tail: Seq<StateChangeType>,
)
    requires
        queues_extended(q0, q1, seq![StateChangeType::FullUpdate] + tail),
        forall|j: int| 0 <= j < tail.len() ==> !(#[trigger] tail[j] is FullUpdate),
    ensures
        forall|i: int|
            0 <= i < q0.len() ==> #[trigger] count_full_updates(q1[i]) == count_full_updates(
                q0[i],
            ) + 1,
{
    assert forall|i: int|
        0 <= i < q0.len() implies #[trigger] count_full_updates(q1[i]) == count_full_updates(
        q0[i],
    ) + 1 by {
        assert(q1[i] == q0[i] + (seq![StateChangeType::FullUpdate] + tail));
        lemma_count_full_updates_add(q0[i], seq![StateChangeType::FullUpdate] + tail);
        lemma_count_full_updates_add(seq![StateChangeType::FullUpdate], tail);
        lemma_count_no_full_updates(tail);
        assert(count_full_updates(seq![StateChangeType::FullUpdate]) == 1) by {
            let one = seq![StateChangeType::FullUpdate];
            assert(one.len() == 1);
            assert(one.last() == StateChangeType::FullUpdate);
            assert(one.drop_last() =~= Seq::<StateChangeType>::empty());
            assert(count_full_updates(Seq::<StateChangeType>::empty()) == 0);
            assert(count_full_updates(one) == count_full_updates(one.drop_last()) + 1);
        }
    }
}

/// A queue free of `FullUpdate` counts zero of them.
pub proof fn lemma_count_no_full_updates(s: Seq<StateChangeType>)
    requires
        forall|j: int| 0 <= j < s.len() ==> !(#[trigger] s[j] is FullUpdate),
    ensures
        count_full_updates(s) == 0,
    decreases s.len(),
{
    if s.len() > 0 {
        lemma_count_no_full_updates(s.drop_last());
    }
}

impl SharedDeviceState {
    /// Take the oldest pending notification of one subscriber, absent
    /// when the subscriber has none pending or is unknown.
    pub fn take_change(&mut self, subscriber: usize) -> (r: Option<StateChangeType>)
        ensures
            final(self).state_spec() == old(self).state_spec(),
            final(self).running_spec() == old(self).running_spec(),
            final(self).paused_spec() == old(self).paused_spec(),
            final(self).last_update_spec() == old(self).last_update_spec(),
            subscriber >= old(self).queues().len() ==> r is None && final(self).queues() == old(
                self,
            ).queues(),
            subscriber < old(self).queues().len() && old(self).queues()[subscriber as int].len()
                == 0 ==> r is None && final(self).queues() == old(self).queues(),
            subscriber < old(self).queues().len() && old(self).queues()[subscriber as int].len()
                > 0 ==> r == Some(old(self).queues()[subscriber as int][0]) && final(self).queues()
                =~= old(self).queues().update(
                subscriber as int,
                old(self).queues()[subscriber as int].drop_first(),
            ),
    {
        if subscriber < self.subscribers.len() {
            if self.subscribers[subscriber].len() > 0 {
                let ghost pre = self.subscribers@;
                let c = self.subscribers[subscriber].remove(0);
                proof {
                    assert(self.subscribers@[subscriber as int]@ =~= pre[subscriber as int]@
                        .drop_first());
                    assert forall|j: int|
                        0 <= j < pre.len() implies #[trigger] self.queues()[j] == old(
                        self,
                    ).queues().update(
                        subscriber as int,
                        old(self).queues()[subscriber as int].drop_first(),
                    )[j] by {
                        assert(self.queues()[j] == self.subscribers@[j]@);
                        if j != subscriber {
                            assert(self.subscribers@[j] == pre[j]);
                        }
                    }
                    assert(self.queues() =~= old(self).queues().update(
                        subscriber as int,
                        old(self).queues()[subscriber as int].drop_first(),
                    ));
                }
                return Option::Some(c);
            }
        }
        Option::None
    }

    /// How many subscribers are registered.
    pub fn subscriber_count(&self) -> (r: usize)
        ensures
            r == self.queues().len(),
    {
        self.subscribers.len()
    }
}

} // verus!
