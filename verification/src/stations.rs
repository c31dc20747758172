//! The station-name table: maps a station name to its numeric stop id.

use vstd::prelude::*;

use crate::strutil::str_eq;

verus! {

/// The stop id for a station name, or `None` for a name not in the table.
pub open spec fn spec_stop_id(name: Seq<char>) -> Option<u32> {
    if name == "bell"@ {
        Some(1019u32)
    } else if name == "clifton_hill"@ {
        Some(1041u32)
    } else if name == "collingwood"@ {
        Some(1043u32)
    } else if name == "croxton"@ {
        Some(1047u32)
    } else if name == "epping"@ {
        Some(1063u32)
    } else if name == "flagstaff"@ {
        Some(1068u32)
    } else if name == "flinders_street"@ {
        Some(1071u32)
    } else if name == "hawkstowe"@ {
        Some(1227u32)
    } else if name == "jolimont-mcg"@ {
        Some(1104u32)
    } else if name == "keon_park"@ {
        Some(1109u32)
    } else if name == "lalor"@ {
        Some(1112u32)
    } else if name == "melbourne_central"@ {
        Some(1120u32)
    } else if name == "mernda"@ {
        Some(1228u32)
    } else if name == "merri"@ {
        Some(1125u32)
    } else if name == "middle_gorge"@ {
        Some(1226u32)
    } else if name == "north_richmond"@ {
        Some(1145u32)
    } else if name == "northcote"@ {
        Some(1147u32)
    } else if name == "parliament"@ {
        Some(1155u32)
    } else if name == "preston"@ {
        Some(1159u32)
    } else if name == "regent"@ {
        Some(1160u32)
    } else if name == "reservoir"@ {
        Some(1161u32)
    } else if name == "rushall"@ {
        Some(1170u32)
    } else if name == "ruthven"@ {
        Some(1171u32)
    } else if name == "south_morang"@ {
        Some(1224u32)
    } else if name == "southern cross"@ {
        Some(1181u32)
    } else if name == "thomastown"@ {
        Some(1192u32)
    } else if name == "thornbury"@ {
        Some(1193u32)
    } else if name == "victoria_park"@ {
        Some(1201u32)
    } else if name == "west_richmond"@ {
        Some(1207u32)
    } else {
        None
    }
}

/// Looks a station name up in the table.
pub fn get_stop_id_from_name(station: &str) -> (r: Option<u32>)
    ensures
        r == spec_stop_id(station@),
{
    if str_eq(station, "bell") {
        Some(1019)
    } else if str_eq(station, "clifton_hill") {
        Some(1041)
    } else if str_eq(station, "collingwood") {
        Some(1043)
    } else if str_eq(station, "croxton") {
        Some(1047)
    } else if str_eq(station, "epping") {
        Some(1063)
    } else if str_eq(station, "flagstaff") {
        Some(1068)
    } else if str_eq(station, "flinders_street") {
        Some(1071)
    } else if str_eq(station, "hawkstowe") {
        Some(1227)
    } else if str_eq(station, "jolimont-mcg") {
        Some(1104)
    } else if str_eq(station, "keon_park") {
        Some(1109)
    } else if str_eq(station, "lalor") {
        Some(1112)
    } else if str_eq(station, "melbourne_central") {
        Some(1120)
    } else if str_eq(station, "mernda") {
        Some(1228)
    } else if str_eq(station, "merri") {
        Some(1125)
    } else if str_eq(station, "middle_gorge") {
        Some(1226)
    } else if str_eq(station, "north_richmond") {
        Some(1145)
    } else if str_eq(station, "northcote") {
        Some(1147)
    } else if str_eq(station, "parliament") {
        Some(1155)
    } else if str_eq(station, "preston") {
        Some(1159)
    } else if str_eq(station, "regent") {
        Some(1160)
    } else if str_eq(station, "reservoir") {
        Some(1161)
    } else if str_eq(station, "rushall") {
        Some(1170)
    } else if str_eq(station, "ruthven") {
        Some(1171)
    } else if str_eq(station, "south_morang") {
        Some(1224)
    } else if str_eq(station, "southern cross") {
        Some(1181)
    } else if str_eq(station, "thomastown") {
        Some(1192)
    } else if str_eq(station, "thornbury") {
        Some(1193)
    } else if str_eq(station, "victoria_park") {
        Some(1201)
    } else if str_eq(station, "west_richmond") {
        Some(1207)
    } else {
        None
    }
}

} // verus!
