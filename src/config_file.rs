use vstd::prelude::*;

verus! {

/// The settings the program starts from.
pub struct Config {
    /// How many abnormal worker exits in all are tolerated before everything stops.
    pub allowed_failures: u32,
    pub jenkins_username: String,
    pub jenkins_password: String,
    pub jenkins_base_url: String,
    pub jenkins_led_pins: Vec<u16>,
    pub unity_cloud_api_token: String,
    pub unity_base_url: String,
    pub unity_led_pins: Vec<u16>,
}

/// The red, green and blue channels of a light: the first three pins listed.
pub open spec fn channel_triple_spec(pins: Seq<u16>) -> Option<(u16, u16, u16)> {
    if pins.len() >= 3 {
        Some((pins[0], pins[1], pins[2]))
    } else {
        None
    }
}

pub fn channel_triple(pins: &Vec<u16>) -> (r: Option<(u16, u16, u16)>)
    ensures
        r == channel_triple_spec(pins@),
{
    if pins.len() >= 3 {
        Some((pins[0], pins[1], pins[2]))
    } else {
        None
    }
}

impl Config {
    /// The channels of the Jenkins light; `None` where fewer than three are listed.
    pub fn jenkins_channels(&self) -> (r: Option<(u16, u16, u16)>)
        ensures
            r == channel_triple_spec(self.jenkins_led_pins@),
    {
        channel_triple(&self.jenkins_led_pins)
    }

    /// The channels of the Unity light; `None` where fewer than three are listed.
    pub fn unity_channels(&self) -> (r: Option<(u16, u16, u16)>)
        ensures
            r == channel_triple_spec(self.unity_led_pins@),
    {
        channel_triple(&self.unity_led_pins)
    }
}

} // verus!
