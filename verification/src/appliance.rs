use vstd::prelude::*;
use vstd::string::StringExecFns;
use crate::device::Device;

verus! {

/// One appliance record as the cloud API returns it: a remote-controlled
/// device with display fields, optional air-conditioner data, and the infra-red
/// signals learned for it. The dashboard treats it as read-only.
#[derive(Clone, Debug, PartialEq)]
pub struct Appliance {
    pub id: String,
    pub device: Device,
    pub model: Option<Model>,
    pub nickname: String,
    pub image: String,
    pub kind: String,
    pub settings: Option<AirconSettings>,
    pub aircon: Option<Aircon>,
    pub signals: Vec<Signal>,
}

/// An air-conditioner model the cloud recognised, with the settings it read.
#[derive(Clone, Debug, PartialEq)]
pub struct DetectedAirconModel {
    pub model: Model,
    pub params: AirconSettings,
}

/// The catalogue entry for an appliance's remote control.
#[derive(Clone, Debug, PartialEq)]
pub struct Model {
    pub id: String,
    pub manufacturer: String,
    pub remote_name: String,
    pub name: String,
    pub image: String,
}

/// The current settings of an air conditioner.
#[derive(Clone, Debug, PartialEq)]
pub struct AirconSettings {
    pub mode: String,
    pub temp: String,
    pub vol: String,
    pub dir: String,
    pub button: String,
}

/// What the cloud reports back after an air-conditioner settings update.
#[derive(Clone, Debug, PartialEq)]
pub struct UpdateAirconSettingsResponse {
    pub mode: String,
    pub temp: String,
    pub vol: String,
    pub dir: String,
    pub button: String,
    pub updated_at: String,
}

/// The setting values available within one air-conditioner mode.
#[derive(Clone, Debug, PartialEq)]
pub struct AirconModeValue {
    pub temp: Vec<String>,
    pub dir: Vec<String>,
    pub vol: Vec<String>,
}

/// The setting values available per air-conditioner mode.
#[derive(Clone, Debug, PartialEq)]
pub struct AirconModes {
    pub cool: AirconModeValue,
    pub warm: AirconModeValue,
    pub dry: AirconModeValue,
    pub blow: AirconModeValue,
}

/// Everything an air conditioner's remote can be asked for.
#[derive(Clone, Debug, PartialEq)]
pub struct AirconRange {
    pub modes: AirconModes,
    pub fixed_buttons: Vec<String>,
}

/// The air-conditioner description attached to an appliance of that kind.
#[derive(Clone, Debug, PartialEq)]
pub struct Aircon {
    pub range: AirconRange,
    pub temp_unit: String,
}

/// One learned infra-red signal.
#[derive(Clone, Debug, PartialEq)]
pub struct Signal {
    pub id: String,
    pub name: String,
    pub image: String,
}

/// The raw infra-red data of a signal.
#[derive(Clone, Debug, PartialEq)]
pub struct SignalMessage {
    pub data: Vec<i32>,
    pub freq: i32,
    pub format: String,
}

/// Whether an appliance is an air conditioner.
pub open spec fn is_aircon(a: Appliance) -> bool {
    a.kind@ == "AC"@
}

/// The first air conditioner in a fetched appliance list, if any.
pub open spec fn spec_find_aircon(s: Seq<Appliance>) -> Option<Appliance>
    decreases s.len(),
{
    if s.len() == 0 {
        None
    } else if is_aircon(s[0]) {
        Some(s[0])
    } else {
        spec_find_aircon(s.drop_first())
    }
}

/// Search a fetched appliance list for the first air conditioner. The caller
/// fetches the list from the cloud; this is the lookup the air-conditioner
/// commands rest on.
pub fn find_aircon(appliances: &Vec<Appliance>) -> (r: Option<&Appliance>)
    ensures
        match r {
            Some(a) => spec_find_aircon(appliances@) == Some(*a),
            None => spec_find_aircon(appliances@) is None,
        },
{
    let needle: String = "AC".to_owned();
    let n = appliances.len();
    proof {
        assert(appliances@.skip(0) =~= appliances@);
    }
    for i in 0..n
        invariant
            n == appliances@.len(),
            needle@ == "AC"@,
            spec_find_aircon(appliances@) == spec_find_aircon(appliances@.skip(i as int)),
            forall|j: int| 0 <= j < i ==> !is_aircon(appliances@[j]),
    {
        proof {
            assert(appliances@.skip(i as int)[0] == appliances@[i as int]);
            assert(appliances@.skip(i as int).drop_first() =~= appliances@.skip(i + 1));
        }
        if appliances[i].kind == needle {
            return Some(&appliances[i]);
        }
    }
    None
}

/// The path of the cloud endpoint that updates one air conditioner's
/// settings: the appliance id spliced between the fixed prefix and suffix.
pub fn aircon_settings_path(aircon_id: &str) -> (r: String)
    ensures
        r@ == "/1/appliances/"@ + aircon_id@ + "/aircon_settings"@,
{
    let prefix: String = "/1/appliances/".to_owned();
    let with_id = prefix.concat(aircon_id);
    with_id.concat("/aircon_settings")
}

} // verus!
