//! From commands to messages: topics and payloads, with every lamp's calibration applied.

use vstd::prelude::*;

use crate::calibration::{
    max_mired, min_mired, range_ok, resolve_for_device, resolved, ResolvedCalibration,
};
use crate::config::types::AppConfig;
use crate::effect::LightCommand;
use crate::names::NameMap;
use crate::state::{SystemState, Z2mDeviceInfo};
use crate::text::{cat2, cat3};

verus! {

/// What a message tells a lamp or a group; absent fields are left out of the payload.
#[derive(Clone, Copy, Debug, PartialEq, Eq, Structural)]
pub struct LightPayload {
    /// `"ON"` or `"OFF"`.
    pub state: Option<bool>,
    pub brightness: Option<u8>,
    pub color_temp: Option<u16>,
    pub transition: Option<u32>,
    pub scene_recall: Option<u16>,
}

/// A message to be published.
#[derive(Clone, Debug)]
pub struct Message {
    pub topic: String,
    pub payload: LightPayload,
}

/// The topic of a device or group, by its friendly name.
pub open spec fn name_topic(base_topic: Seq<char>, name: Seq<char>) -> Seq<char> {
    base_topic + "/"@ + name
}

/// The topic on which a device or group takes commands.
pub open spec fn set_topic(base_topic: Seq<char>, name: Seq<char>) -> Seq<char> {
    name_topic(base_topic, name) + "/set"@
}

/// The topic of a device, by its IEEE address; nothing where no device has it.
pub fn resolve_topic(state: &SystemState, ieee: &str, base_topic: &str) -> (r: Option<String>)
    ensures
        r is Some == state.device_map@.contains_key(ieee@),
        r matches Some(topic) ==> topic@ == name_topic(
            base_topic@,
            state.device_map@[ieee@].friendly_name@,
        ),
{
    match state.device_map.get(ieee) {
        Some(device) => Some(cat3(base_topic, "/", device.friendly_name.as_str())),
        None => None,
    }
}

/// The values that a command carries can be corrected for the lamp `ieee`: its offset can be added
/// to a brightness, and its color temperature range is no empty one.
pub open spec fn can_correct(
    ieee: Seq<char>,
    brightness: bool,
    color_temp: bool,
    config: AppConfig,
    devices: NameMap<Z2mDeviceInfo>,
) -> bool {
    let device = devices.lookup(ieee);
    &&& brightness ==> resolved(ieee, config.light_calibration, device).in_limits()
    &&& color_temp ==> min_mired(device) <= max_mired(device)
}

/// What a command carries can be worked out. Nothing is asked of lamps that it does not go to.
pub open spec fn can_send(
    command: LightCommand<Seq<char>>,
    config: AppConfig,
    devices: NameMap<Z2mDeviceInfo>,
) -> bool {
    match command {
        LightCommand::TurnOnIeee { ieee, brightness, color_temp_mired, transition } => can_correct(
            ieee,
            brightness is Some,
            color_temp_mired is Some,
            config,
            devices,
        ),
        LightCommand::PushCircadianIeee { ieee, brightness, color_temp_mired, transition } =>
            can_correct(ieee, true, color_temp_mired is Some, config, devices),
        _ => true,
    }
}

/// What the lamp `ieee` is sent for a brightness.
pub open spec fn device_brightness(
    ieee: Seq<char>,
    brightness: u8,
    config: AppConfig,
    devices: NameMap<Z2mDeviceInfo>,
) -> u8 {
    resolved(ieee, config.light_calibration, devices.lookup(ieee)).brightness(brightness)
}

/// What the lamp `ieee` is sent for a color temperature.
pub open spec fn device_color_temp(
    ieee: Seq<char>,
    mired: u16,
    config: AppConfig,
    devices: NameMap<Z2mDeviceInfo>,
) -> u16 {
    resolved(ieee, config.light_calibration, devices.lookup(ieee)).color_temp(
        mired,
        devices.lookup(ieee),
    )
}

/// `f` of the value, where there is one.
pub open spec fn mapped<T>(value: Option<T>, f: spec_fn(T) -> T) -> Option<T> {
    match value {
        Some(v) => Some(f(v)),
        None => None,
    }
}

/// The payload of a command. Commands to single lamps carry values corrected for that lamp.
pub open spec fn command_payload(
    command: LightCommand<Seq<char>>,
    config: AppConfig,
    devices: NameMap<Z2mDeviceInfo>,
) -> LightPayload {
    match command {
        LightCommand::TurnOnGroup { group, brightness, color_temp_mired, transition } =>
            LightPayload {
                state: Some(true),
                brightness,
                color_temp: color_temp_mired,
                transition,
                scene_recall: None,
            },
        LightCommand::TurnOffGroup { group, transition } => LightPayload {
            state: Some(false),
            brightness: None,
            color_temp: None,
            transition,
            scene_recall: None,
        },
        LightCommand::TurnOnIeee { ieee, brightness, color_temp_mired, transition } =>
            LightPayload {
                state: Some(true),
                brightness: mapped(
                    brightness,
                    |b: u8| device_brightness(ieee, b, config, devices),
                ),
                color_temp: mapped(
                    color_temp_mired,
                    |ct: u16| device_color_temp(ieee, ct, config, devices),
                ),
                transition,
                scene_recall: None,
            },
        LightCommand::TurnOffIeee { ieee, transition } => LightPayload {
            state: Some(false),
            brightness: None,
            color_temp: None,
            transition,
            scene_recall: None,
        },
        LightCommand::PushCircadianGroup { group, brightness, color_temp_mired, transition } =>
            LightPayload {
                state: None,
                brightness: Some(brightness),
                color_temp: Some(color_temp_mired),
                transition: Some(transition),
                scene_recall: None,
            },
        LightCommand::PushCircadianIeee { ieee, brightness, color_temp_mired, transition } =>
            LightPayload {
                state: None,
                brightness: Some(device_brightness(ieee, brightness, config, devices)),
                color_temp: mapped(
                    color_temp_mired,
                    |ct: u16| device_color_temp(ieee, ct, config, devices),
                ),
                transition: Some(transition),
                scene_recall: None,
            },
        LightCommand::RecallSceneGroup { group, scene_id } => LightPayload {
            state: None,
            brightness: None,
            color_temp: None,
            transition: None,
            scene_recall: Some(scene_id),
        },
        LightCommand::PushBrightnessOnlyGroup { group, brightness, transition } => LightPayload {
            state: None,
            brightness: Some(brightness),
            color_temp: None,
            transition: Some(transition),
            scene_recall: None,
        },
    }
}

/// The friendly name that a command goes to: that of the group, or that of the lamp, where it is
/// known.
pub open spec fn command_name(
    command: LightCommand<Seq<char>>,
    devices: NameMap<Z2mDeviceInfo>,
) -> Option<Seq<char>> {
    match command {
        LightCommand::TurnOnGroup { group, .. } => Some(group),
        LightCommand::TurnOffGroup { group, .. } => Some(group),
        LightCommand::PushCircadianGroup { group, .. } => Some(group),
        LightCommand::RecallSceneGroup { group, .. } => Some(group),
        LightCommand::PushBrightnessOnlyGroup { group, .. } => Some(group),
        LightCommand::TurnOnIeee { ieee, .. } => device_name(ieee, devices),
        LightCommand::TurnOffIeee { ieee, .. } => device_name(ieee, devices),
        LightCommand::PushCircadianIeee { ieee, .. } => device_name(ieee, devices),
    }
}

/// The friendly name of a device.
pub open spec fn device_name(ieee: Seq<char>, devices: NameMap<Z2mDeviceInfo>) -> Option<
    Seq<char>,
> {
    match devices.lookup(ieee) {
        Some(device) => Some(device.friendly_name@),
        None => None,
    }
}

/// Turns commands into messages.
#[derive(Clone, Copy)]
pub struct Publisher<'a> {
    pub base_topic: &'a str,
    pub state: &'a SystemState,
    pub config: &'a AppConfig,
}

impl<'a> Publisher<'a> {
    /// The message is the one for the command.
    pub open spec fn carries(self, message: Message, command: LightCommand<Seq<char>>) -> bool {
        &&& command_name(command, self.state.device_map) is Some
        &&& message.topic@ == set_topic(
            self.base_topic@,
            command_name(command, self.state.device_map)->0,
        )
        &&& message.payload == command_payload(command, *self.config, self.state.device_map)
    }

    pub fn new(base_topic: &'a str, state: &'a SystemState, config: &'a AppConfig) -> (r: Self)
        ensures
            r.base_topic@ == base_topic@,
            r.state == state,
            r.config == config,
    {
        Publisher { base_topic, state, config }
    }

    pub fn set_light_group(&self, group_name: &str, payload: LightPayload) -> (r: Message)
        ensures
            r.topic@ == set_topic(self.base_topic@, group_name@),
            r.payload == payload,
    {
        let topic: String = cat3(self.base_topic, "/", group_name);
        Message { topic: cat2(topic.as_str(), "/set"), payload }
    }

    /// The message for a lamp; nothing where its address is not known.
    pub fn set_light_ieee(&self, ieee: &str, payload: LightPayload) -> (r: Option<Message>)
        ensures
            r is Some == self.state.device_map@.contains_key(ieee@),
            r matches Some(message) ==> message.topic@ == set_topic(
                self.base_topic@,
                self.state.device_map@[ieee@].friendly_name@,
            ) && message.payload == payload,
    {
        match resolve_topic(self.state, ieee, self.base_topic) {
            Some(topic) => Some(Message { topic: cat2(topic.as_str(), "/set"), payload }),
            None => None,
        }
    }

    /// A brightness and a color temperature, corrected for one lamp.
    fn calibrated(&self, ieee: &str, brightness: Option<u8>, color_temp_mired: Option<u16>) -> (r: (
        Option<u8>,
        Option<u16>,
    ))
        requires
            can_correct(
                ieee@,
                brightness is Some,
                color_temp_mired is Some,
                *self.config,
                self.state.device_map,
            ),
        ensures
            r.0 == mapped(
                brightness,
                |b: u8| device_brightness(ieee@, b, *self.config, self.state.device_map),
            ),
            r.1 == mapped(
                color_temp_mired,
                |ct: u16| device_color_temp(ieee@, ct, *self.config, self.state.device_map),
            ),
    {
        let cal: ResolvedCalibration = resolve_for_device(
            ieee,
            self.config,
            &self.state.device_map,
        );
        let device_info = self.state.device_map.get(ieee);
        let b: Option<u8> = match brightness {
            Some(value) => Some(cal.apply_brightness(value)),
            None => None,
        };
        let ct: Option<u16> = match color_temp_mired {
            Some(value) => Some(cal.apply_color_temp(value, device_info)),
            None => None,
        };
        (b, ct)
    }

    pub fn turn_on_group(
        &self,
        group_name: &str,
        brightness: Option<u8>,
        color_temp_mired: Option<u16>,
        transition: Option<u32>,
    ) -> (r: Message)
        ensures
            self.carries(
                r,
                LightCommand::TurnOnGroup {
                    group: group_name@,
                    brightness,
                    color_temp_mired,
                    transition,
                },
            ),
    {
        self.set_light_group(
            group_name,
            LightPayload {
                state: Some(true),
                brightness,
                color_temp: color_temp_mired,
                transition,
                scene_recall: None,
            },
        )
    }

    pub fn turn_off_group(&self, group_name: &str, transition: Option<u32>) -> (r: Message)
        ensures
            self.carries(r, LightCommand::TurnOffGroup { group: group_name@, transition }),
    {
        self.set_light_group(
            group_name,
            LightPayload {
                state: Some(false),
                brightness: None,
                color_temp: None,
                transition,
                scene_recall: None,
            },
        )
    }

    pub fn turn_on_ieee(
        &self,
        ieee: &str,
        brightness: Option<u8>,
        color_temp_mired: Option<u16>,
        transition: Option<u32>,
    ) -> (r: Option<Message>)
        requires
            can_correct(
                ieee@,
                brightness is Some,
                color_temp_mired is Some,
                *self.config,
                self.state.device_map,
            ),
        ensures
            r is Some == self.state.device_map@.contains_key(ieee@),
            r matches Some(message) ==> self.carries(
                message,
                LightCommand::TurnOnIeee { ieee: ieee@, brightness, color_temp_mired, transition },
            ),
    {
        let (b, ct): (Option<u8>, Option<u16>) = self.calibrated(ieee, brightness, color_temp_mired);
        self.set_light_ieee(
            ieee,
            LightPayload {
                state: Some(true),
                brightness: b,
                color_temp: ct,
                transition,
                scene_recall: None,
            },
        )
    }

    pub fn turn_off_ieee(&self, ieee: &str, transition: Option<u32>) -> (r: Option<Message>)
        ensures
            r is Some == self.state.device_map@.contains_key(ieee@),
            r matches Some(message) ==> self.carries(
                message,
                LightCommand::TurnOffIeee { ieee: ieee@, transition },
            ),
    {
        self.set_light_ieee(
            ieee,
            LightPayload {
                state: Some(false),
                brightness: None,
                color_temp: None,
                transition,
                scene_recall: None,
            },
        )
    }

    pub fn push_circadian_group(
        &self,
        group_name: &str,
        brightness: u8,
        color_temp_mired: u16,
        transition: u32,
    ) -> (r: Message)
        ensures
            self.carries(
                r,
                LightCommand::PushCircadianGroup {
                    group: group_name@,
                    brightness,
                    color_temp_mired,
                    transition,
                },
            ),
    {
        self.set_light_group(
            group_name,
            LightPayload {
                state: None,
                brightness: Some(brightness),
                color_temp: Some(color_temp_mired),
                transition: Some(transition),
                scene_recall: None,
            },
        )
    }

    pub fn push_circadian_ieee(
        &self,
        ieee: &str,
        brightness: u8,
        color_temp_mired: Option<u16>,
        transition: u32,
    ) -> (r: Option<Message>)
        requires
            can_correct(
                ieee@,
                true,
                color_temp_mired is Some,
                *self.config,
                self.state.device_map,
            ),
        ensures
            r is Some == self.state.device_map@.contains_key(ieee@),
            r matches Some(message) ==> self.carries(
                message,
                LightCommand::PushCircadianIeee {
                    ieee: ieee@,
                    brightness,
                    color_temp_mired,
                    transition,
                },
            ),
    {
        let (b, ct): (Option<u8>, Option<u16>) = self.calibrated(
            ieee,
            Some(brightness),
            color_temp_mired,
        );
        self.set_light_ieee(
            ieee,
            LightPayload {
                state: None,
                brightness: b,
                color_temp: ct,
                transition: Some(transition),
                scene_recall: None,
            },
        )
    }

    pub fn recall_scene_group(&self, group_name: &str, scene_id: u16) -> (r: Message)
        ensures
            self.carries(r, LightCommand::RecallSceneGroup { group: group_name@, scene_id }),
    {
        self.set_light_group(
            group_name,
            LightPayload {
                state: None,
                brightness: None,
                color_temp: None,
                transition: None,
                scene_recall: Some(scene_id),
            },
        )
    }

    pub fn push_circadian_brightness_only_group(
        &self,
        group_name: &str,
        brightness: u8,
        transition: u32,
    ) -> (r: Message)
        ensures
            self.carries(
                r,
                LightCommand::PushBrightnessOnlyGroup { group: group_name@, brightness, transition },
            ),
    {
        self.set_light_group(
            group_name,
            LightPayload {
                state: None,
                brightness: Some(brightness),
                color_temp: None,
                transition: Some(transition),
                scene_recall: None,
            },
        )
    }

    fn check_correction(&self, ieee: &str, brightness: bool, color_temp: bool) -> (r: bool)
        ensures
            r == can_correct(ieee@, brightness, color_temp, *self.config, self.state.device_map),
    {
        let cal: ResolvedCalibration = resolve_for_device(
            ieee,
            self.config,
            &self.state.device_map,
        );
        let (min, max): (u16, u16) = match self.state.device_map.get(ieee) {
            Some(d) => (d.color_temp_min.unwrap_or(1), d.color_temp_max.unwrap_or(u16::MAX)),
            None => (1, u16::MAX),
        };
        (!brightness || cal.brightness_offset <= 32_512) && (!color_temp || min <= max)
    }

    /// Whether what a command carries can be worked out.
    pub fn check_command(&self, command: &LightCommand) -> (r: bool)
        ensures
            r == can_send(command@, *self.config, self.state.device_map),
    {
        match command {
            LightCommand::TurnOnIeee { ieee, brightness, color_temp_mired, transition: _ } =>
                self.check_correction(
                    ieee.as_str(),
                    brightness.is_some(),
                    color_temp_mired.is_some(),
                ),
            LightCommand::PushCircadianIeee {
                ieee,
                brightness: _,
                color_temp_mired,
                transition: _,
            } => self.check_correction(ieee.as_str(), true, color_temp_mired.is_some()),
            _ => true,
        }
    }

    /// The message for a command; nothing where it goes to a lamp whose address is not known.
    pub fn message_for(&self, command: &LightCommand) -> (r: Option<Message>)
        requires
            can_send(command@, *self.config, self.state.device_map),
        ensures
            r is Some == command_name(command@, self.state.device_map) is Some,
            r matches Some(message) ==> self.carries(message, command@),
    {
        match command {
            LightCommand::TurnOnGroup { group, brightness, color_temp_mired, transition } => Some(
                self.turn_on_group(group.as_str(), *brightness, *color_temp_mired, *transition),
            ),
            LightCommand::TurnOffGroup { group, transition } => Some(
                self.turn_off_group(group.as_str(), *transition),
            ),
            LightCommand::TurnOnIeee { ieee, brightness, color_temp_mired, transition } =>
                self.turn_on_ieee(ieee.as_str(), *brightness, *color_temp_mired, *transition),
            LightCommand::TurnOffIeee { ieee, transition } => self.turn_off_ieee(
                ieee.as_str(),
                *transition,
            ),
            LightCommand::PushCircadianGroup { group, brightness, color_temp_mired, transition } =>
                Some(
                    self.push_circadian_group(
                        group.as_str(),
                        *brightness,
                        *color_temp_mired,
                        *transition,
                    ),
                ),
            LightCommand::PushCircadianIeee { ieee, brightness, color_temp_mired, transition } =>
                self.push_circadian_ieee(
                    ieee.as_str(),
                    *brightness,
                    *color_temp_mired,
                    *transition,
                ),
            LightCommand::RecallSceneGroup { group, scene_id } => Some(
                self.recall_scene_group(group.as_str(), *scene_id),
            ),
            LightCommand::PushBrightnessOnlyGroup { group, brightness, transition } => Some(
                self.push_circadian_brightness_only_group(
                    group.as_str(),
                    *brightness,
                    *transition,
                ),
            ),
        }
    }
}

/// What a message says: it goes to the set topic of the group, or of the lamp under the name that it
/// has now. A group is told the command's values as they are.
pub proof fn law_groups_are_told_as_commanded(
    publisher: Publisher,
    message: Message,
    group: Seq<char>,
    brightness: Option<u8>,
    color_temp_mired: Option<u16>,
    transition: Option<u32>,
    b: u8,
    ct: u16,
    over: u32,
    scene_id: u16,
)
    ensures
        publisher.carries(
            message,
            LightCommand::TurnOnGroup { group, brightness, color_temp_mired, transition },
        ) ==> message.topic@ == publisher.base_topic@ + "/"@ + group + "/set"@ && message.payload
            == (LightPayload {
            state: Some(true),
            brightness,
            color_temp: color_temp_mired,
            transition,
            scene_recall: None,
        }),
        publisher.carries(message, LightCommand::TurnOffGroup { group, transition })
            ==> message.topic@ == publisher.base_topic@ + "/"@ + group + "/set"@ && message.payload
            == (LightPayload {
            state: Some(false),
            brightness: None,
            color_temp: None,
            transition,
            scene_recall: None,
        }),
        publisher.carries(
            message,
            LightCommand::PushCircadianGroup {
                group,
                brightness: b,
                color_temp_mired: ct,
                transition: over,
            },
        ) ==> message.topic@ == publisher.base_topic@ + "/"@ + group + "/set"@ && message.payload
            == (LightPayload {
            state: None,
            brightness: Some(b),
            color_temp: Some(ct),
            transition: Some(over),
            scene_recall: None,
        }),
        publisher.carries(message, LightCommand::RecallSceneGroup { group, scene_id })
            ==> message.topic@ == publisher.base_topic@ + "/"@ + group + "/set"@ && message.payload
            == (LightPayload {
            state: None,
            brightness: None,
            color_temp: None,
            transition: None,
            scene_recall: Some(scene_id),
        }),
{
}

/// A lamp is told the command's values moved by its offsets, as far as its range allows.
pub proof fn law_lamps_are_told_corrected_values(
    publisher: Publisher,
    message: Message,
    ieee: Seq<char>,
    brightness: u8,
    color_temp_mired: u16,
    transition: u32,
)
    requires
        publisher.state.device_map@.contains_key(ieee),
        range_ok(publisher.state.device_map@[ieee]),
        publisher.carries(
            message,
            LightCommand::TurnOnIeee {
                ieee,
                brightness: Some(brightness),
                color_temp_mired: Some(color_temp_mired),
                transition: Some(transition),
            },
        ) || publisher.carries(
            message,
            LightCommand::PushCircadianIeee {
                ieee,
                brightness,
                color_temp_mired: Some(color_temp_mired),
                transition,
            },
        ),
    ensures
        ({
            let d = publisher.state.device_map@[ieee];
            let cal = resolved(ieee, publisher.config.light_calibration, Some(d));
            let b = brightness + cal.brightness_offset;
            let ct = color_temp_mired + cal.color_temp_offset;
            &&& message.topic@ == publisher.base_topic@ + "/"@ + d.friendly_name@ + "/set"@
            &&& message.payload.transition == Some(transition)
            &&& message.payload.scene_recall is None
            &&& message.payload.brightness is Some && message.payload.color_temp is Some
            &&& 1 <= b <= 254 ==> message.payload.brightness->0 == b
            &&& b < 1 ==> message.payload.brightness->0 == 1
            &&& b > 254 ==> message.payload.brightness->0 == 254
            &&& min_mired(Some(d)) <= ct <= max_mired(Some(d)) ==> message.payload.color_temp->0
                == ct
            &&& ct < min_mired(Some(d)) ==> message.payload.color_temp->0 == min_mired(Some(d))
            &&& ct > max_mired(Some(d)) ==> message.payload.color_temp->0 == max_mired(Some(d))
        }),
{
}

/// What is left out of a command to a lamp is left out of the message, and only a command to turn on
/// or off says so.
pub proof fn law_messages_add_nothing(
    publisher: Publisher,
    message: Message,
    ieee: Seq<char>,
    brightness: Option<u8>,
    color_temp_mired: Option<u16>,
    transition: Option<u32>,
    b: u8,
    over: u32,
)
    ensures
        publisher.carries(
            message,
            LightCommand::TurnOnIeee { ieee, brightness, color_temp_mired, transition },
        ) ==> message.payload.state == Some(true) && (message.payload.brightness is Some
            <==> brightness is Some) && (message.payload.color_temp is Some <==> color_temp_mired
            is Some) && message.payload.transition == transition,
        publisher.carries(message, LightCommand::TurnOffIeee { ieee, transition })
            ==> message.payload == (LightPayload {
            state: Some(false),
            brightness: None,
            color_temp: None,
            transition,
            scene_recall: None,
        }),
        publisher.carries(
            message,
            LightCommand::PushCircadianIeee {
                ieee,
                brightness: b,
                color_temp_mired,
                transition: over,
            },
        ) ==> message.payload.state is None && (message.payload.color_temp is Some
            <==> color_temp_mired is Some),
{
}

} // verus!
