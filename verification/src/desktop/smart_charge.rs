//! Optimized charging through Acer Care Center's local websocket: the
//! messages the shell sends, how it reads the replies, and the result of a
//! verified `BatteryHealthy` write.
use vstd::prelude::*;

use crate::json::{
    json_compact_text, json_field, json_get, json_insert_number, json_insert_text, json_member,
    json_member_value, json_object_with_number, json_string_items, json_string_list, json_to_text,
    parse_json_text, string_items_view, JsonField,
};
use crate::service::telemetry::firmware::field_u64;
use crate::text::{chars_of, push_decimal, spec_decimal, string_from, text_equals};

verus! {

/// The Care Center websocket endpoint.
pub const CARE_CENTER_URL: &'static str = "wss://127.0.0.1:4343/";

/// The authentication blob Care Center expects from its own client.
pub const CARE_CENTER_AUTH_DATA: &'static str = "OO24T5iPpUKxfxjPZW4ddo3uGeIJXC+ZbJPzCNGMBenvnZ7J9xQjpykAdgAL1a9HocmZsOHxisitF9B0t7msCayFnVDZA79rADTRjUNWQaLEQA6wSpLrLo/Fu/gHH7BM";

/// Care Center's settings file.
pub const SETTINGS_PATH: &'static str = "C:\\ProgramData\\Acer\\CC\\settings.json";

/// The outcome of a verified smart-charging change.
#[derive(Clone, Debug)]
pub struct SmartChargeApplyPayload {
    pub enabled: bool,
    pub battery_healthy: u8,
    pub applied_at_unix: u64,
    pub detail: String,
}

/// The charge window Care Center reports.
#[derive(Clone, Copy, Debug, PartialEq, Eq, Structural)]
pub struct BatteryBoundary {
    pub upper_bound: u8,
    pub lower_bound: u8,
}

/// `BatteryHealthy` 0 turns optimized charging (the 80% ceiling) on, 1
/// allows full charging.
pub fn requested_battery_healthy(enabled: bool) -> (r: u8)
    ensures
        r == (if enabled { 0u8 } else { 1u8 }),
{
    if enabled {
        0
    } else {
        1
    }
}

// ----------------------------------------------------------------------------
// Messages
// ----------------------------------------------------------------------------

/// The member `key` of `d` is the number `n`.
pub open spec fn number_member(d: serde_json::Value, key: Seq<char>, n: u64) -> bool {
    json_member(d, key) == JsonField::Number(Some(n))
}

/// The member `key` of `d` is the string `v`.
pub open spec fn text_member(d: serde_json::Value, key: Seq<char>, v: Seq<char>) -> bool {
    json_member(d, key) matches JsonField::Text(t) && t@ == v
}

/// `d` has no member outside `keys`.
pub open spec fn members_within(d: serde_json::Value, keys: Set<Seq<char>>) -> bool {
    forall|k: Seq<char>|
        !keys.contains(k) ==> #[trigger] json_member(d, k) == JsonField::Absent
            && json_member_value(d, k) is None
}

/// A Care Center request object: exactly the given number and string
/// members.
pub open spec fn care_center_request(
    d: serde_json::Value,
    numbers: Map<Seq<char>, u64>,
    texts: Map<Seq<char>, Seq<char>>,
) -> bool {
    &&& forall|k: Seq<char>| #[trigger] numbers.dom().contains(k) ==> number_member(d, k, numbers[k])
    &&& forall|k: Seq<char>| #[trigger] texts.dom().contains(k) ==> text_member(d, k, texts[k])
    &&& members_within(d, numbers.dom() + texts.dom())
}

/// The members every Care Center request starts with.
pub open spec fn request_header(packet_type: u64) -> Map<Seq<char>, u64> {
    map!["PacketType"@ => packet_type, "Version"@ => 1u64]
}

/// The authentication request: `PacketType` 1, `Version` 1 and the
/// authentication blob as `Data`.
pub open spec fn auth_request(d: serde_json::Value) -> bool {
    care_center_request(d, request_header(1), map!["Data"@ => CARE_CENTER_AUTH_DATA@])
}

/// The function query: `PacketType` 2, `Version` 1, `Session`
/// `af-function-query` and `Command` `FunctionQuery`.
pub open spec fn function_query_request(d: serde_json::Value) -> bool {
    care_center_request(
        d,
        request_header(2),
        map!["Session"@ => "af-function-query"@, "Command"@ => "FunctionQuery"@],
    )
}

/// The `BatteryHealthy` write: `PacketType` 2, `Version` 1, `Session`
/// `af-bh-set-<value>`, `Command` `BatteryHealthy`, `Action` `Set` and
/// `Param1` the value.
pub open spec fn set_battery_healthy_request(d: serde_json::Value, value: u8) -> bool {
    care_center_request(
        d,
        request_header(2).insert("Param1"@, value as u64),
        map![
            "Session"@ => "af-bh-set-"@ + spec_decimal(value as nat),
            "Command"@ => "BatteryHealthy"@,
            "Action"@ => "Set"@
        ],
    )
}

/// A `Get` request of `command` with the session name `session`.
pub open spec fn get_request(d: serde_json::Value, session: Seq<char>, command: Seq<char>) -> bool {
    care_center_request(
        d,
        request_header(2),
        map!["Session"@ => session, "Command"@ => command, "Action"@ => "Get"@],
    )
}

proof fn lemma_add_text(
    d0: serde_json::Value,
    d1: serde_json::Value,
    numbers: Map<Seq<char>, u64>,
    texts: Map<Seq<char>, Seq<char>>,
    key: Seq<char>,
    value: Seq<char>,
)
    requires
        care_center_request(d0, numbers, texts),
        !numbers.dom().contains(key),
        text_member(d1, key, value),
        forall|k: Seq<char>| k != key ==> #[trigger] json_member(d1, k) == json_member(d0, k),
        forall|k: Seq<char>| k != key ==> #[trigger] json_member_value(d1, k) == json_member_value(d0, k),
    ensures
        care_center_request(d1, numbers, texts.insert(key, value)),
{
    assert forall|k: Seq<char>| #[trigger] numbers.dom().contains(k) implies number_member(d1, k, numbers[k]) by {
        assert(json_member(d1, k) == json_member(d0, k));
    }
    assert forall|k: Seq<char>| #[trigger] texts.insert(key, value).dom().contains(k) implies text_member(
        d1,
        k,
        texts.insert(key, value)[k],
    ) by {
        if k != key {
            assert(json_member(d1, k) == json_member(d0, k));
            assert(texts.dom().contains(k));
        }
    }
    let keys = numbers.dom() + texts.insert(key, value).dom();
    assert forall|k: Seq<char>| !keys.contains(k) implies #[trigger] json_member(d1, k) == JsonField::Absent
        && json_member_value(d1, k) is None by {
        assert(k != key);
        assert(!(numbers.dom() + texts.dom()).contains(k));
        assert(json_member(d0, k) == JsonField::Absent);
    }
}

proof fn lemma_add_number(
    d0: serde_json::Value,
    d1: serde_json::Value,
    numbers: Map<Seq<char>, u64>,
    texts: Map<Seq<char>, Seq<char>>,
    key: Seq<char>,
    value: u64,
)
    requires
        care_center_request(d0, numbers, texts),
        !texts.dom().contains(key),
        number_member(d1, key, value),
        forall|k: Seq<char>| k != key ==> #[trigger] json_member(d1, k) == json_member(d0, k),
        forall|k: Seq<char>| k != key ==> #[trigger] json_member_value(d1, k) == json_member_value(d0, k),
    ensures
        care_center_request(d1, numbers.insert(key, value), texts),
{
    assert forall|k: Seq<char>| #[trigger] numbers.insert(key, value).dom().contains(k) implies number_member(
        d1,
        k,
        numbers.insert(key, value)[k],
    ) by {
        if k != key {
            assert(json_member(d1, k) == json_member(d0, k));
            assert(numbers.dom().contains(k));
        }
    }
    assert forall|k: Seq<char>| #[trigger] texts.dom().contains(k) implies text_member(d1, k, texts[k]) by {
        assert(json_member(d1, k) == json_member(d0, k));
    }
    let keys = numbers.insert(key, value).dom() + texts.dom();
    assert forall|k: Seq<char>| !keys.contains(k) implies #[trigger] json_member(d1, k) == JsonField::Absent
        && json_member_value(d1, k) is None by {
        assert(k != key);
        assert(!(numbers.dom() + texts.dom()).contains(k));
        assert(json_member(d0, k) == JsonField::Absent);
    }
}

/// The member names of the requests are distinct.
proof fn lemma_request_keys()
    ensures
        "PacketType"@ != "Version"@,
        "PacketType"@ != "Param1"@,
        "PacketType"@ != "Data"@,
        "PacketType"@ != "Session"@,
        "PacketType"@ != "Command"@,
        "PacketType"@ != "Action"@,
        "Version"@ != "Param1"@,
        "Version"@ != "Data"@,
        "Version"@ != "Session"@,
        "Version"@ != "Command"@,
        "Version"@ != "Action"@,
        "Param1"@ != "Data"@,
        "Param1"@ != "Session"@,
        "Param1"@ != "Command"@,
        "Param1"@ != "Action"@,
        "Session"@ != "Command"@,
        "Session"@ != "Action"@,
        "Command"@ != "Action"@,
{
    reveal_strlit("PacketType");
    reveal_strlit("Version");
    reveal_strlit("Param1");
    reveal_strlit("Data");
    reveal_strlit("Session");
    reveal_strlit("Command");
    reveal_strlit("Action");
    assert("PacketType"@[0] == 'P' && "PacketType"@.len() == 10);
    assert("Version"@[0] == 'V' && "Version"@.len() == 7);
    assert("Param1"@[0] == 'P' && "Param1"@.len() == 6);
    assert("Data"@[0] == 'D' && "Data"@.len() == 4);
    assert("Session"@[0] == 'S' && "Session"@.len() == 7);
    assert("Command"@[0] == 'C' && "Command"@.len() == 7);
    assert("Action"@[0] == 'A' && "Action"@.len() == 6);
}

/// A new request object with `PacketType` and `Version`.
fn request_object(packet_type: u64) -> (r: serde_json::Value)
    ensures
        care_center_request(r, request_header(packet_type), Map::empty()),
{
    proof {
        reveal_strlit("PacketType");
        reveal_strlit("Version");
    }
    let mut d = json_object_with_number("PacketType", packet_type);
    let ghost d0 = d;
    assert(json_member(d, "PacketType"@) != JsonField::Absent);
    let written = json_insert_number(&mut d, "Version", 1);
    assert(written);
    proof {
        assert("PacketType"@.len() != "Version"@.len());
        let numbers = request_header(packet_type);
        assert(numbers.dom() =~= set!["PacketType"@, "Version"@]);
        assert forall|k: Seq<char>| #[trigger] numbers.dom().contains(k) implies number_member(d, k, numbers[k]) by {
            if k == "PacketType"@ {
                assert(json_member(d, k) == json_member(d0, k));
            }
        }
        let keys = numbers.dom() + Map::<Seq<char>, Seq<char>>::empty().dom();
        assert forall|k: Seq<char>| !keys.contains(k) implies #[trigger] json_member(d, k) == JsonField::Absent
            && json_member_value(d, k) is None by {
            assert(k != "PacketType"@ && k != "Version"@);
            assert(json_member(d0, k) == JsonField::Absent);
        }
    }
    d
}

/// Sets the string member `key` of a request object.
fn add_text(d: &mut serde_json::Value, key: &str, value: &str)
    requires
        !(json_member(*old(d), "PacketType"@) is Absent),
    ensures
        text_member(*final(d), key@, value@),
        !(json_member(*final(d), "PacketType"@) is Absent),
        forall|k: Seq<char>| k != key@ ==> #[trigger] json_member(*final(d), k) == json_member(*old(d), k),
        forall|k: Seq<char>|
            k != key@ ==> #[trigger] json_member_value(*final(d), k) == json_member_value(*old(d), k),
{
    let written = json_insert_text(d, key, value);
    assert(written);
}

/// The authentication message: the compact text of an
/// [`auth_request`] object.
pub fn auth_message() -> (r: String)
    ensures
        exists|d: serde_json::Value| #[trigger] auth_request(d) && r@ == json_compact_text(d),
{
    proof {
        lemma_request_keys();
    }
    let mut d = request_object(1);
    let ghost d0 = d;
    assert(number_member(d, "PacketType"@, 1) && request_header(1).dom().contains("PacketType"@));
    add_text(&mut d, "Data", CARE_CENTER_AUTH_DATA);
    proof {
        assert(!request_header(1).dom().contains("Data"@));
        lemma_add_text(d0, d, request_header(1), Map::empty(), "Data"@, CARE_CENTER_AUTH_DATA@);
        assert(Map::<Seq<char>, Seq<char>>::empty().insert("Data"@, CARE_CENTER_AUTH_DATA@) =~= map!["Data"@ => CARE_CENTER_AUTH_DATA@]);
        assert(auth_request(d));
    }
    json_to_text(&d)
}

/// Adds `Session`, `Command` and, when given, `Action` to a fresh request
/// object with `PacketType` 2.
fn command_request(session: &str, command: &str, action: Option<&str>) -> (r: serde_json::Value)
    ensures
        action is None ==> care_center_request(
            r,
            request_header(2),
            map!["Session"@ => session@, "Command"@ => command@],
        ),
        action matches Some(a) ==> care_center_request(
            r,
            request_header(2),
            map!["Session"@ => session@, "Command"@ => command@, "Action"@ => a@],
        ),
{
    proof {
        lemma_request_keys();
    }
    let mut d = request_object(2);
    let ghost d0 = d;
    assert(number_member(d, "PacketType"@, 2) && request_header(2).dom().contains("PacketType"@));
    add_text(&mut d, "Session", session);
    let ghost d1 = d;
    proof {
        lemma_add_text(d0, d1, request_header(2), Map::empty(), "Session"@, session@);
    }
    add_text(&mut d, "Command", command);
    let ghost d2 = d;
    let ghost texts2 = Map::<Seq<char>, Seq<char>>::empty().insert("Session"@, session@).insert(
        "Command"@,
        command@,
    );
    proof {
        lemma_add_text(
            d1,
            d2,
            request_header(2),
            Map::empty().insert("Session"@, session@),
            "Command"@,
            command@,
        );
        assert(texts2 =~= map!["Session"@ => session@, "Command"@ => command@]);
    }
    match action {
        Some(a) => {
            add_text(&mut d, "Action", a);
            proof {
                lemma_add_text(d2, d, request_header(2), texts2, "Action"@, a@);
                assert(texts2.insert("Action"@, a@) =~= map![
                    "Session"@ => session@,
                    "Command"@ => command@,
                    "Action"@ => a@
                ]);
            }
        },
        None => {},
    }
    d
}

/// The query for the functions Care Center supports: the compact text of a
/// [`function_query_request`] object.
pub fn function_query_message() -> (r: String)
    ensures
        exists|d: serde_json::Value| #[trigger] function_query_request(d) && r@ == json_compact_text(d),
{
    let d = command_request("af-function-query", "FunctionQuery", None);
    assert(function_query_request(d));
    json_to_text(&d)
}

/// The command that sets `BatteryHealthy` to `value`: the compact text of
/// a [`set_battery_healthy_request`] object.
pub fn set_battery_healthy_message(value: u8) -> (r: String)
    ensures
        exists|d: serde_json::Value| #[trigger] set_battery_healthy_request(d, value) && r@
            == json_compact_text(d),
{
    proof {
        lemma_request_keys();
    }
    let mut session = string_from("af-bh-set-");
    push_decimal(&mut session, value as u64);
    let mut d = command_request(session.as_str(), "BatteryHealthy", Some("Set"));
    let ghost d0 = d;
    let ghost texts = map![
        "Session"@ => session@,
        "Command"@ => "BatteryHealthy"@,
        "Action"@ => "Set"@
    ];
    assert(request_header(2).dom().contains("PacketType"@));
    assert(number_member(d, "PacketType"@, 2));
    let written = json_insert_number(&mut d, "Param1", value as u64);
    assert(written);
    proof {
        assert(!texts.dom().contains("Param1"@));
        lemma_add_number(d0, d, request_header(2), texts, "Param1"@, value as u64);
        assert(set_battery_healthy_request(d, value));
    }
    json_to_text(&d)
}

/// The command that reads `BatteryHealthy`: the compact text of a
/// [`get_request`] object for session `af-bh-get`.
pub fn get_battery_healthy_message() -> (r: String)
    ensures
        exists|d: serde_json::Value| #[trigger] get_request(d, "af-bh-get"@, "BatteryHealthy"@) && r@
            == json_compact_text(d),
{
    let d = command_request("af-bh-get", "BatteryHealthy", Some("Get"));
    assert(get_request(d, "af-bh-get"@, "BatteryHealthy"@));
    json_to_text(&d)
}

/// The command that reads `BatteryBoundary`: the compact text of a
/// [`get_request`] object for session `af-boundary-get`.
pub fn get_battery_boundary_message() -> (r: String)
    ensures
        exists|d: serde_json::Value| #[trigger] get_request(d, "af-boundary-get"@, "BatteryBoundary"@)
            && r@ == json_compact_text(d),
{
    let d = command_request("af-boundary-get", "BatteryBoundary", Some("Get"));
    assert(get_request(d, "af-boundary-get"@, "BatteryBoundary"@));
    json_to_text(&d)
}

// ----------------------------------------------------------------------------
// Replies
// ----------------------------------------------------------------------------

/// A reply's `PacketType`, 0 when it has none.
pub open spec fn packet_type(f: JsonField) -> u64 {
    match field_u64(f) {
        Some(v) => v,
        None => 0,
    }
}

/// A small integer field that fits in `u8`.
pub open spec fn field_u8(f: JsonField) -> Option<u8> {
    match field_u64(f) {
        Some(v) => if v <= 255 {
            Some(v as u8)
        } else {
            None
        },
        None => None,
    }
}

fn packet_type_exec(f: &JsonField) -> (r: u64)
    ensures
        r == packet_type(*f),
{
    match f {
        JsonField::Number(Some(v)) => *v,
        _ => 0,
    }
}

fn field_u8_exec(f: &JsonField) -> (r: Option<u8>)
    ensures
        r == field_u8(*f),
{
    match f {
        JsonField::Number(Some(v)) => if *v <= 255 {
            Some(*v as u8)
        } else {
            None
        },
        _ => None,
    }
}

fn message_with(prefix: &str, reply_text: &str) -> (r: String)
    ensures
        r@ == prefix@ + reply_text@,
{
    let mut r = string_from(prefix);
    r.append(reply_text);
    r
}

/// The authentication reply must have `PacketType` 1.
pub fn auth_reply_outcome(packet: &JsonField, reply_text: &str) -> (r: Result<(), String>)
    ensures
        packet_type(*packet) == 1 ==> r is Ok,
        packet_type(*packet) != 1 ==> (r matches Err(e) && e@
            == "Unexpected Care Center auth response: "@ + reply_text@),
{
    if packet_type_exec(packet) == 1 {
        Ok(())
    } else {
        Err(message_with("Unexpected Care Center auth response: ", reply_text))
    }
}

/// The set reply must have `PacketType` 3.
pub fn set_reply_outcome(packet: &JsonField, reply_text: &str) -> (r: Result<(), String>)
    ensures
        packet_type(*packet) == 3 ==> r is Ok,
        packet_type(*packet) != 3 ==> (r matches Err(e) && e@
            == "Unexpected BatteryHealthy set response: "@ + reply_text@),
{
    if packet_type_exec(packet) == 3 {
        Ok(())
    } else {
        Err(message_with("Unexpected BatteryHealthy set response: ", reply_text))
    }
}

/// An entry of the function list that is the string `BatteryHealthy`.
pub open spec fn names_battery_healthy(item: Option<String>) -> bool {
    item matches Some(s) && s@ == "BatteryHealthy"@
}

/// The function list names `BatteryHealthy`.
pub open spec fn lists_battery_healthy(items: Option<Vec<Option<String>>>) -> bool {
    match items {
        Some(v) => exists|i: int| 0 <= i < v@.len() && names_battery_healthy(#[trigger] v@[i]),
        None => false,
    }
}

/// The function query must list `BatteryHealthy` among its `Data` strings.
pub fn function_query_outcome(items: &Option<Vec<Option<String>>>) -> (r: Result<(), String>)
    ensures
        lists_battery_healthy(*items) ==> r is Ok,
        !lists_battery_healthy(*items) ==> (r matches Err(e) && e@
            == "Acer Care Center does not report BatteryHealthy support on this machine."@),
{
    let mut found = false;
    match items {
        Some(v) => {
            let n = v.len();
            for i in 0..n
                invariant
                    n == v@.len(),
                    found == exists|k: int| 0 <= k < i && names_battery_healthy(#[trigger] v@[k]),
            {
                let hit = match &v[i] {
                    Some(s) => text_equals(s.as_str(), "BatteryHealthy"),
                    None => false,
                };
                if hit {
                    found = true;
                }
            }
        },
        None => {},
    }
    if found {
        Ok(())
    } else {
        Err(string_from("Acer Care Center does not report BatteryHealthy support on this machine."))
    }
}

/// The `Result.Value` of a `BatteryHealthy` reply, which must fit in `u8`.
pub fn battery_healthy_outcome(value: &JsonField, reply_text: &str) -> (r: Result<u8, String>)
    ensures
        field_u8(*value) matches Some(v) ==> r == Ok::<u8, String>(v),
        field_u8(*value) is None ==> (r matches Err(e) && e@
            == "BatteryHealthy get response did not contain Value: "@ + reply_text@),
{
    match field_u8_exec(value) {
        Some(v) => Ok(v),
        None => Err(message_with("BatteryHealthy get response did not contain Value: ", reply_text)),
    }
}

/// The window of a `BatteryBoundary` reply: `Result` must be an object
/// whose `UpperBound` and `LowerBound` fit in `u8`, checked in that order.
pub fn battery_boundary_outcome(
    result: &JsonField,
    upper: &JsonField,
    lower: &JsonField,
    reply_text: &str,
) -> (r: Result<BatteryBoundary, String>)
    ensures
        !(*result is Object) ==> (r matches Err(e) && e@
            == "BatteryBoundary response missing Result object: "@ + reply_text@),
        *result is Object && field_u8(*upper) is None ==> (r matches Err(e) && e@
            == "BatteryBoundary response missing UpperBound: "@ + reply_text@),
        *result is Object && field_u8(*upper) is Some && field_u8(*lower) is None ==> (r matches Err(
            e,
        ) && e@ == "BatteryBoundary response missing LowerBound: "@ + reply_text@),
        *result is Object && field_u8(*upper) is Some && field_u8(*lower) is Some ==> r == Ok::<
            BatteryBoundary,
            String,
        >(
            BatteryBoundary {
                upper_bound: field_u8(*upper)->0,
                lower_bound: field_u8(*lower)->0,
            },
        ),
{
    match result {
        JsonField::Object => {},
        _ => {
            return Err(message_with("BatteryBoundary response missing Result object: ", reply_text));
        },
    }
    let upper_bound = match field_u8_exec(upper) {
        Some(v) => v,
        None => {
            return Err(message_with("BatteryBoundary response missing UpperBound: ", reply_text));
        },
    };
    let lower_bound = match field_u8_exec(lower) {
        Some(v) => v,
        None => {
            return Err(message_with("BatteryBoundary response missing LowerBound: ", reply_text));
        },
    };
    Ok(BatteryBoundary { upper_bound, lower_bound })
}

/// A text reply from Care Center's websocket, read as a JSON document.
pub fn read_care_center_reply(text: &str) -> (r: Result<serde_json::Value, String>)
    ensures
        r is Ok == crate::json::json_text_parses(text@),
        r matches Ok(doc) ==> crate::json::json_from_text(text@) == Some(doc),
{
    parse_json_text(text)
}

/// A binary reply from Care Center's websocket, read as a JSON document.
pub fn read_care_center_reply_bytes(bytes: &[u8]) -> (r: Result<serde_json::Value, String>)
    ensures
        r is Ok == crate::json::json_bytes_parse(bytes@),
        r matches Ok(doc) ==> crate::json::json_from_bytes(bytes@) == Some(doc),
{
    crate::json::parse_json_bytes(bytes)
}

/// A list of texts that holds `BatteryHealthy`.
pub open spec fn list_names_battery_healthy(items: Option<Seq<Option<Seq<char>>>>) -> bool {
    match items {
        Some(l) => exists|i: int| 0 <= i < l.len() && #[trigger] l[i] == Some("BatteryHealthy"@),
        None => false,
    }
}

proof fn lemma_lists_battery_healthy_by_view(items: Option<Vec<Option<String>>>)
    ensures
        lists_battery_healthy(items) == list_names_battery_healthy(string_items_view(items)),
{
    if let Some(v) = items {
        let l = string_items_view(items)->0;
        assert(l.len() == v@.len());
        if lists_battery_healthy(items) {
            let i = choose|i: int| 0 <= i < v@.len() && names_battery_healthy(#[trigger] v@[i]);
            assert(l[i] == Some("BatteryHealthy"@));
        }
        if list_names_battery_healthy(string_items_view(items)) {
            let i = choose|i: int| 0 <= i < l.len() && #[trigger] l[i] == Some("BatteryHealthy"@);
            assert(names_battery_healthy(v@[i]));
        }
    }
}

/// The `Result.Value` field of a `BatteryHealthy` reply.
pub open spec fn battery_healthy_value_field(reply: serde_json::Value) -> JsonField {
    match json_member_value(reply, "Result"@) {
        Some(result) => json_member(result, "Value"@),
        None => JsonField::Absent,
    }
}

/// The `UpperBound` field of a `BatteryBoundary` reply's `Result`.
pub open spec fn boundary_upper_field(reply: serde_json::Value) -> JsonField {
    match json_member_value(reply, "Result"@) {
        Some(result) => json_member(result, "UpperBound"@),
        None => JsonField::Absent,
    }
}

/// The `LowerBound` field of a `BatteryBoundary` reply's `Result`.
pub open spec fn boundary_lower_field(reply: serde_json::Value) -> JsonField {
    match json_member_value(reply, "Result"@) {
        Some(result) => json_member(result, "LowerBound"@),
        None => JsonField::Absent,
    }
}

/// Reads the authentication reply: it is accepted when its `PacketType`
/// is 1, and a refusal quotes the reply.
pub fn check_auth_reply(reply: &serde_json::Value) -> (r: Result<(), String>)
    ensures
        packet_type(json_member(*reply, "PacketType"@)) == 1 ==> r is Ok,
        packet_type(json_member(*reply, "PacketType"@)) != 1 ==> (r matches Err(e) && e@
            == "Unexpected Care Center auth response: "@ + json_compact_text(*reply)),
{
    let text = json_to_text(reply);
    auth_reply_outcome(&json_field(reply, "PacketType"), text.as_str())
}

/// Reads the function-query reply: it is accepted when its `Data` list
/// names `BatteryHealthy`.
pub fn check_function_query_reply(reply: &serde_json::Value) -> (r: Result<(), String>)
    ensures
        list_names_battery_healthy(json_string_list(*reply, "Data"@)) ==> r is Ok,
        !list_names_battery_healthy(json_string_list(*reply, "Data"@)) ==> (r matches Err(e) && e@
            == "Acer Care Center does not report BatteryHealthy support on this machine."@),
{
    let items = json_string_items(reply, "Data");
    proof {
        lemma_lists_battery_healthy_by_view(items);
    }
    function_query_outcome(&items)
}

/// Reads the reply to a `BatteryHealthy` write: it is accepted when its
/// `PacketType` is 3, and a refusal quotes the reply.
pub fn check_set_reply(reply: &serde_json::Value) -> (r: Result<(), String>)
    ensures
        packet_type(json_member(*reply, "PacketType"@)) == 3 ==> r is Ok,
        packet_type(json_member(*reply, "PacketType"@)) != 3 ==> (r matches Err(e) && e@
            == "Unexpected BatteryHealthy set response: "@ + json_compact_text(*reply)),
{
    let text = json_to_text(reply);
    set_reply_outcome(&json_field(reply, "PacketType"), text.as_str())
}

/// Reads the reply to a `BatteryHealthy` read: its `Result.Value`, which
/// must fit in `u8`; a reply without a usable value is quoted.
pub fn read_battery_healthy_reply(reply: &serde_json::Value) -> (r: Result<u8, String>)
    ensures
        field_u8(battery_healthy_value_field(*reply)) matches Some(v) ==> r == Ok::<u8, String>(v),
        field_u8(battery_healthy_value_field(*reply)) is None ==> (r matches Err(e) && e@
            == "BatteryHealthy get response did not contain Value: "@ + json_compact_text(*reply)),
{
    let text = json_to_text(reply);
    let value = match json_get(reply, "Result") {
        Some(result) => json_field(&result, "Value"),
        None => JsonField::Absent,
    };
    battery_healthy_outcome(&value, text.as_str())
}

/// Reads the reply to a `BatteryBoundary` read: `Result` must be an object
/// whose `UpperBound` and `LowerBound` fit in `u8`, checked in that order;
/// a reply without a usable window is quoted.
pub fn read_battery_boundary_reply(reply: &serde_json::Value) -> (r: Result<BatteryBoundary, String>)
    ensures
        !(json_member(*reply, "Result"@) is Object) ==> (r matches Err(e) && e@
            == "BatteryBoundary response missing Result object: "@ + json_compact_text(*reply)),
        json_member(*reply, "Result"@) is Object && field_u8(boundary_upper_field(*reply)) is None
            ==> (r matches Err(e) && e@ == "BatteryBoundary response missing UpperBound: "@
            + json_compact_text(*reply)),
        json_member(*reply, "Result"@) is Object && field_u8(boundary_upper_field(*reply)) is Some
            && field_u8(boundary_lower_field(*reply)) is None ==> (r matches Err(e) && e@
            == "BatteryBoundary response missing LowerBound: "@ + json_compact_text(*reply)),
        json_member(*reply, "Result"@) is Object && field_u8(boundary_upper_field(*reply)) is Some
            && field_u8(boundary_lower_field(*reply)) is Some ==> r == Ok::<BatteryBoundary, String>(
            BatteryBoundary {
                upper_bound: field_u8(boundary_upper_field(*reply))->0,
                lower_bound: field_u8(boundary_lower_field(*reply))->0,
            },
        ),
{
    let text = json_to_text(reply);
    let result_field = json_field(reply, "Result");
    let (upper, lower) = match json_get(reply, "Result") {
        Some(result) => (json_field(&result, "UpperBound"), json_field(&result, "LowerBound")),
        None => (JsonField::Absent, JsonField::Absent),
    };
    battery_boundary_outcome(&result_field, &upper, &lower, text.as_str())
}

// ----------------------------------------------------------------------------
// The result
// ----------------------------------------------------------------------------

/// The detail of an applied change, by whether optimized charging is on
/// and whether the charge window could be read.
pub open spec fn smart_charge_detail(enabled: bool, boundary: Option<BatteryBoundary>) -> Seq<char> {
    match (enabled, boundary) {
        (true, Some(b)) => "Applied Acer Care Center optimized charging (BatteryHealthy=0). BatteryBoundary reports "@
            + spec_decimal(b.lower_bound as nat) + "-"@ + spec_decimal(b.upper_bound as nat)
            + " with the 80% ceiling active."@,
        (true, None) => "Applied Acer Care Center optimized charging (BatteryHealthy=0) with the 80% ceiling active."@,
        (false, Some(b)) => "Applied full battery charging through Acer Care Center (BatteryHealthy=1). BatteryBoundary still reports "@
            + spec_decimal(b.lower_bound as nat) + "-"@ + spec_decimal(b.upper_bound as nat)
            + ", but BatteryHealthy is the real full-charge gate on this SKU."@,
        (false, None) => "Applied full battery charging through Acer Care Center (BatteryHealthy=1)."@,
    }
}

/// The result of a smart-charging change once `BatteryHealthy` was written
/// and read back: the read-back value must be the requested one.
pub fn apply_smart_charging(
    enabled: bool,
    verified_battery_healthy: u8,
    boundary: Option<BatteryBoundary>,
    applied_at_unix: u64,
) -> (r: Result<SmartChargeApplyPayload, String>)
    ensures
        verified_battery_healthy != (if enabled { 0u8 } else { 1u8 }) ==> (r matches Err(e) && e@
            == "Care Center returned BatteryHealthy "@ + spec_decimal(
            verified_battery_healthy as nat,
        ) + " after requesting "@ + spec_decimal((if enabled { 0u8 } else { 1u8 }) as nat)
            + "."@),
        verified_battery_healthy == (if enabled { 0u8 } else { 1u8 }) ==> (r matches Ok(p)
            && p.enabled == enabled && p.battery_healthy == verified_battery_healthy
            && p.applied_at_unix == applied_at_unix && p.detail@ == smart_charge_detail(
            enabled,
            boundary,
        )),
{
    let requested = requested_battery_healthy(enabled);
    if verified_battery_healthy != requested {
        let mut e = string_from("Care Center returned BatteryHealthy ");
        push_decimal(&mut e, verified_battery_healthy as u64);
        e.append(" after requesting ");
        push_decimal(&mut e, requested as u64);
        e.append(".");
        return Err(e);
    }
    let mut detail = String::new();
    match boundary {
        Some(b) => {
            if enabled {
                detail.append(
                    "Applied Acer Care Center optimized charging (BatteryHealthy=0). BatteryBoundary reports ",
                );
            } else {
                detail.append(
                    "Applied full battery charging through Acer Care Center (BatteryHealthy=1). BatteryBoundary still reports ",
                );
            }
            push_decimal(&mut detail, b.lower_bound as u64);
            detail.append("-");
            push_decimal(&mut detail, b.upper_bound as u64);
            if enabled {
                detail.append(" with the 80% ceiling active.");
            } else {
                detail.append(", but BatteryHealthy is the real full-charge gate on this SKU.");
            }
        },
        None => {
            if enabled {
                detail.append(
                    "Applied Acer Care Center optimized charging (BatteryHealthy=0) with the 80% ceiling active.",
                );
            } else {
                detail.append(
                    "Applied full battery charging through Acer Care Center (BatteryHealthy=1).",
                );
            }
        },
    }
    Ok(SmartChargeApplyPayload {
        enabled,
        battery_healthy: verified_battery_healthy,
        applied_at_unix,
        detail,
    })
}

/// The error of a Care Center step that did not finish in time.
pub fn timeout_error(label: &str) -> (r: String)
    ensures
        r@ == "Timed out while trying to "@ + label@ + "."@,
{
    let mut r = string_from("Timed out while trying to ");
    r.append(label);
    r.append(".");
    r
}

/// The error for a settings file that is not a JSON object.
pub open spec fn settings_not_object_error() -> Seq<char> {
    "Care Center settings.json was not a JSON object."@
}

/// `updated` is `base` with its `BatteryHealthy` member set to
/// `battery_healthy` and every other member kept.
pub open spec fn settings_updated_from(
    updated: serde_json::Value,
    base: serde_json::Value,
    battery_healthy: u8,
) -> bool {
    &&& json_member(updated, "BatteryHealthy"@) == JsonField::Number(Some(battery_healthy as u64))
    &&& forall|k: Seq<char>|
        k != "BatteryHealthy"@ ==> #[trigger] json_member(updated, k) == json_member(base, k)
    &&& forall|k: Seq<char>|
        k != "BatteryHealthy"@ ==> #[trigger] json_member_value(updated, k) == json_member_value(
            base,
            k,
        )
}

/// Care Center's settings with `BatteryHealthy` set: the existing settings
/// text (none when the file does not exist) must be a JSON object, whose
/// other members are kept; a missing file gives an object with
/// `BatteryHealthy` alone.
pub fn update_care_center_settings(existing: Option<&str>, battery_healthy: u8) -> (r: Result<
    serde_json::Value,
    String,
>)
    ensures
        existing is None ==> (r matches Ok(d) && json_member(d, "BatteryHealthy"@)
            == JsonField::Number(Some(battery_healthy as u64)) && (forall|k: Seq<char>|
            k != "BatteryHealthy"@ ==> #[trigger] json_member(d, k) == JsonField::Absent)
            && (forall|k: Seq<char>|
            k != "BatteryHealthy"@ ==> #[trigger] json_member_value(d, k) is None)),
        existing matches Some(t) && !crate::json::json_text_parses(t@) ==> r is Err,
        existing matches Some(t) ==> (crate::json::json_from_text(t@) matches Some(base) ==> (
        r matches Ok(d) ==> settings_updated_from(d, base, battery_healthy))),
        existing matches Some(t) ==> (crate::json::json_from_text(t@) matches Some(base) ==> (
        r matches Err(e) ==> e@ == settings_not_object_error() && forall|k: Seq<char>|
            #[trigger] json_member(base, k) == JsonField::Absent)),
{
    let mut root = match existing {
        Some(text) => match parse_json_text(text) {
            Ok(doc) => doc,
            Err(e) => return Err(e),
        },
        None => return Ok(json_object_with_number("BatteryHealthy", battery_healthy as u64)),
    };
    let is_object = json_insert_number(&mut root, "BatteryHealthy", battery_healthy as u64);
    if !is_object {
        return Err(string_from("Care Center settings.json was not a JSON object."));
    }
    Ok(root)
}

} // verus!
