//! The bridge's inventory of lights.
//!
//! The bridge answers with one JSON object that holds a record per light.
//! The client keeps the records in the order in which the object hands them
//! out; a light's place in that order is what it is later addressed by.

use vstd::prelude::*;
use vstd::string::*;
use serde_json::Value;
use crate::config::Config;
use crate::exchange::{
    failed_contact, lights_url, spec_failed_contact, spec_lights_url, Method, Reading, Request,
    RequestView, Response, STATUS_OK,
};
use crate::json::{
    flag_field, json_document, json_member, json_member_values, json_unsigned, member,
    member_values, parse_document, read_flag, read_text, text_field,
};
use crate::text::text_views;

verus! {

/// Whether a light is lit, and how brightly.
#[derive(Clone, Copy, Debug, PartialEq, Eq, Structural)]
pub struct LightState {
    pub on: bool,
    /// Brightness on the bridge's own scale; `None` for a light that
    /// reports none.
    pub bri: Option<u8>,
}

/// One light as the bridge reports it.
#[derive(Clone, Debug, PartialEq, Eq)]
pub struct Light {
    /// The name shown to the operator.
    pub name: String,
    pub state: LightState,
}

/// A `Light` as plain values.
pub struct LightView {
    pub name: Seq<char>,
    pub state: LightState,
}

impl View for Light {
    type V = LightView;

    open spec fn view(&self) -> LightView {
        LightView { name: self.name@, state: self.state }
    }
}

/// The lights of a list as plain values.
pub open spec fn light_views(lights: Seq<Light>) -> Seq<LightView> {
    lights.map_values(|light: Light| light@)
}

/// Why the answer to a request for the inventory cannot be used.
#[derive(Clone, Copy, Debug, PartialEq, Eq, Structural)]
pub enum InventoryError {
    /// The body is not a JSON document.
    NotJson,
    /// The document is not a JSON object.
    NotAnObject,
    /// A member of the object is not the record of a light.
    BadLight,
}

/// The brightness that the member `bri` of a state gives. A state without
/// that member has no brightness, and that is in order. A member that is
/// there has to be a whole number of at most 255: the outer `None` says that
/// it is not.
pub open spec fn spec_brightness_member(value: Value) -> Option<Option<u8>> {
    match json_member(value, "bri"@) {
        None => Some(None),
        Some(inner) => match json_unsigned(inner) {
            Some(bri) => if bri <= u8::MAX {
                Some(Some(bri as u8))
            } else {
                None
            },
            None => None,
        },
    }
}

/// The state that a JSON value describes: an object with a boolean `on`
/// and, where the light reports its brightness, a whole number `bri` of at
/// most 255.
pub open spec fn spec_light_state(value: Value) -> Option<LightState> {
    match (flag_field(value, "on"@), spec_brightness_member(value)) {
        (Some(on), Some(bri)) => Some(LightState { on, bri }),
        _ => None,
    }
}

/// A state that says whether the light is on and says nothing of its
/// brightness is a state, with no brightness; one that gives a brightness
/// which is no whole number of at most 255 is none.
pub proof fn lemma_state_without_brightness(value: Value)
    ensures
        json_member(value, "bri"@) is None ==> spec_light_state(value) == match flag_field(
            value,
            "on"@,
        ) {
            Some(on) => Some(LightState { on, bri: None }),
            None => None,
        },
        json_member(value, "bri"@) is Some && spec_light_state(value) is Some ==> {
            let bri = json_unsigned(json_member(value, "bri"@)->Some_0);
            bri is Some && bri->Some_0 <= u8::MAX && spec_light_state(value)->Some_0.bri == Some(
                bri->Some_0 as u8,
            )
        },
{
}

/// The light that a JSON value describes: an object with a string `name` and
/// a `state`.
pub open spec fn spec_light(value: Value) -> Option<LightView> {
    match (text_field(value, "name"@), json_member(value, "state"@)) {
        (Some(name), Some(inner)) => match spec_light_state(inner) {
            Some(state) => Some(LightView { name, state }),
            None => None,
        },
        _ => None,
    }
}

/// The lights that a list of records describes, in the same order; `None`
/// where one of them is no record of a light.
pub open spec fn spec_lights(records: Seq<Value>) -> Option<Seq<LightView>> {
    if forall|i: int| 0 <= i < records.len() ==> spec_light(#[trigger] records[i]) is Some {
        Some(records.map_values(|record: Value| spec_light(record)->Some_0))
    } else {
        None
    }
}

/// What a response to the request for the inventory means. A status other
/// than 200 means no lights, as if the bridge had none.
pub open spec fn spec_inventory(status: u16, body: Seq<char>) -> Result<
    Seq<LightView>,
    InventoryError,
> {
    if status != STATUS_OK {
        Ok(Seq::empty())
    } else {
        match json_document(body) {
            None => Err(InventoryError::NotJson),
            Some(document) => match json_member_values(document) {
                None => Err(InventoryError::NotAnObject),
                Some(records) => match spec_lights(records) {
                    None => Err(InventoryError::BadLight),
                    Some(lights) => Ok(lights),
                },
            },
        }
    }
}

/// The request for the bridge's inventory.
pub open spec fn spec_lights_request(config: crate::config::ConfigView) -> RequestView {
    RequestView {
        method: Method::Get,
        url: spec_lights_url(config),
        body: Seq::empty(),
        reading: Reading::BodyIfOk,
    }
}

/// Builds the request for the bridge's inventory.
pub fn lights_request(config: &Config) -> (request: Request)
    ensures
        request@ == spec_lights_request(config@),
{
    Request {
        method: Method::Get,
        url: lights_url(config),
        body: String::new(),
        reading: Reading::BodyIfOk,
    }
}

/// Reads the brightness of a state from its member `bri`, if it has one.
pub fn parse_brightness_member(value: &Value) -> (bri: Option<Option<u8>>)
    ensures
        bri == spec_brightness_member(*value),
{
    match member(value, "bri") {
        None => Some(None),
        Some(inner) => match inner.as_u64() {
            Some(bri) => if bri <= 255 {
                Some(Some(bri as u8))
            } else {
                None
            },
            None => None,
        },
    }
}

/// Reads the state of a light from its JSON value.
pub fn parse_light_state(value: &Value) -> (state: Option<LightState>)
    ensures
        state == spec_light_state(*value),
{
    let on = read_flag(value, "on");
    let bri = parse_brightness_member(value);
    match (on, bri) {
        (Some(on), Some(bri)) => Some(LightState { on, bri }),
        _ => None,
    }
}

/// Reads one light from its JSON record.
pub fn parse_light_json(record: &Value) -> (light: Option<Light>)
    ensures
        match light {
            Some(found) => spec_light(*record) == Some(found@),
            None => spec_light(*record) is None,
        },
{
    let name = read_text(record, "name");
    let inner = member(record, "state");
    match (name, inner) {
        (Some(name), Some(inner)) => match parse_light_state(inner) {
            Some(state) => Some(Light { name, state }),
            None => None,
        },
        _ => None,
    }
}

/// Reads the lights from the records of an inventory, keeping their order.
pub fn parse_lights(records: &Vec<&Value>) -> (lights: Option<Vec<Light>>)
    ensures
        match lights {
            Some(found) => spec_lights(records@.map_values(|record: &Value| *record)) == Some(
                light_views(found@),
            ),
            None => spec_lights(records@.map_values(|record: &Value| *record)) is None,
        },
{
    let ghost values = records@.map_values(|record: &Value| *record);
    let mut lights: Vec<Light> = Vec::new();
    let mut i: usize = 0;
    while i < records.len()
        invariant
            i <= records.len(),
            values == records@.map_values(|record: &Value| *record),
            lights@.len() == i,
            forall|k: int| 0 <= k < i ==> spec_light(#[trigger] values[k]) == Some(lights@[k]@),
        decreases records.len() - i,
    {
        match parse_light_json(records[i]) {
            Some(light) => {
                lights.push(light);
            },
            None => {
                assert(spec_light(values[i as int]) is None);
                return None;
            },
        }
        i += 1;
    }
    assert(light_views(lights@) =~= values.map_values(|record: Value| spec_light(record)->Some_0));
    Some(lights)
}

/// Reads the lights from the response to the request for the inventory.
///
/// A response with a status other than 200 gives no lights and no error: the
/// caller cannot tell it from a bridge without lights, and
/// `inventory_diagnostic` has the line that tells the operator.
pub fn get_all_lights(response: &Response) -> (result: Result<Vec<Light>, InventoryError>)
    ensures
        match result {
            Ok(lights) => spec_inventory(response.status, response.body@) == Ok::<
                Seq<LightView>,
                InventoryError,
            >(light_views(lights@)),
            Err(error) => spec_inventory(response.status, response.body@) == Err::<
                Seq<LightView>,
                InventoryError,
            >(error),
        },
{
    if response.status != STATUS_OK {
        let lights: Vec<Light> = Vec::new();
        assert(light_views(lights@) =~= Seq::empty());
        return Ok(lights);
    }
    let document = match parse_document(response.body.as_str()) {
        Some(document) => document,
        None => {
            return Err(InventoryError::NotJson);
        },
    };
    let records = match member_values(&document) {
        Some(records) => records,
        None => {
            return Err(InventoryError::NotAnObject);
        },
    };
    match parse_lights(&records) {
        Some(lights) => Ok(lights),
        None => Err(InventoryError::BadLight),
    }
}

/// Where the first light called `name` stands in a list, counted from zero;
/// `None` where no light has that name.
pub open spec fn spec_position(lights: Seq<LightView>, name: Seq<char>) -> Option<nat>
    decreases lights.len(),
{
    if lights.len() == 0 {
        None
    } else {
        match spec_position(lights.drop_last(), name) {
            Some(earlier) => Some(earlier),
            None => if lights.last().name == name {
                Some((lights.len() - 1) as nat)
            } else {
                None
            },
        }
    }
}

/// The position of a name is that of the first light that has it, and there
/// is none exactly where no light has it.
pub proof fn lemma_position_is_first(lights: Seq<LightView>, name: Seq<char>)
    ensures
        match spec_position(lights, name) {
            Some(at) => at < lights.len() && lights[at as int].name == name && forall|k: int|
                0 <= k < at ==> (#[trigger] lights[k]).name != name,
            None => forall|k: int| 0 <= k < lights.len() ==> (#[trigger] lights[k]).name != name,
        },
    decreases lights.len(),
{
    if lights.len() > 0 {
        let front = lights.drop_last();
        lemma_position_is_first(front, name);
        match spec_position(front, name) {
            Some(at) => {
                assert(front[at as int] == lights[at as int]);
                assert forall|k: int| 0 <= k < at implies (#[trigger] lights[k]).name != name by {
                    assert(front[k] == lights[k]);
                }
            },
            None => {
                assert forall|k: int| 0 <= k < front.len() implies (#[trigger] lights[k]).name
                    != name by {
                    assert(front[k] == lights[k]);
                }
            },
        }
    }
}

/// Finds the first light called `name`.
pub fn find_light(lights: &Vec<Light>, name: &str) -> (found: Option<usize>)
    ensures
        match found {
            Some(at) => at < lights.len() && spec_position(light_views(lights@), name@) == Some(
                at as nat,
            ),
            None => spec_position(light_views(lights@), name@) is None,
        },
{
    let wanted = name.to_owned();
    let ghost all = light_views(lights@);
    let mut i: usize = 0;
    while i < lights.len()
        invariant
            i <= lights.len(),
            all == light_views(lights@),
            wanted@ == name@,
            spec_position(all.take(i as int), name@) is None,
        decreases lights.len() - i,
    {
        proof {
            let next = all.take(i + 1);
            assert(next.drop_last() =~= all.take(i as int));
            assert(next.last() == lights@[i as int]@);
            lemma_position_extends(all, name@, i + 1);
        }
        if lights[i].name == wanted {
            return Some(i);
        }
        i += 1;
    }
    assert(all.take(i as int) =~= all);
    None
}

/// A name found among the first lights of a list is found at the same place
/// in the whole list.
pub proof fn lemma_position_extends(lights: Seq<LightView>, name: Seq<char>, shorter: int)
    requires
        0 <= shorter <= lights.len(),
    ensures
        spec_position(lights.take(shorter), name) is Some ==> spec_position(lights, name)
            == spec_position(lights.take(shorter), name),
    decreases lights.len(),
{
    if shorter == lights.len() {
        assert(lights.take(shorter) =~= lights);
    } else {
        let front = lights.drop_last();
        assert(front.take(shorter) =~= lights.take(shorter));
        lemma_position_extends(front, name, shorter);
    }
}

/// The line that reports a failed request for the inventory: there is one
/// exactly where the status is not 200.
pub open spec fn spec_inventory_diagnostic(status: u16) -> Option<Seq<char>> {
    if status != STATUS_OK {
        Some(spec_failed_contact(status))
    } else {
        None
    }
}

/// The line to show the operator where the request for the inventory
/// failed.
pub fn inventory_diagnostic(response: &Response) -> (line: Option<String>)
    ensures
        match line {
            Some(text) => spec_inventory_diagnostic(response.status) == Some(text@),
            None => spec_inventory_diagnostic(response.status) is None,
        },
{
    if response.status != STATUS_OK {
        Some(failed_contact(response.status))
    } else {
        None
    }
}

/// The lines to show the operator about the request for the inventory
/// itself: the diagnostic where it failed, else none.
pub open spec fn spec_diagnostic_lines(status: u16) -> Seq<Seq<char>> {
    match spec_inventory_diagnostic(status) {
        Some(line) => seq![line],
        None => Seq::empty(),
    }
}

/// The lines to show the operator about the request for the inventory
/// itself.
pub fn diagnostic_lines(response: &Response) -> (lines: Vec<String>)
    ensures
        text_views(lines@) == spec_diagnostic_lines(response.status),
{
    let mut lines: Vec<String> = Vec::new();
    match inventory_diagnostic(response) {
        Some(line) => {
            lines.push(line);
            assert(text_views(lines@) =~= seq![line@]);
        },
        None => {
            assert(text_views(lines@) =~= Seq::empty());
        },
    }
    lines
}

/// The line that lists one light: its name, then `: ON` or `: OFF`.
pub open spec fn spec_light_line(light: LightView) -> Seq<char> {
    if light.state.on {
        light.name + ": ON"@
    } else {
        light.name + ": OFF"@
    }
}

/// The listing of some lights: one line each, in their order.
pub open spec fn spec_listing(lights: Seq<LightView>) -> Seq<Seq<char>> {
    lights.map_values(|light: LightView| spec_light_line(light))
}

/// Writes the listing of some lights, one line for each.
pub fn print_lights(lights: &Vec<Light>) -> (lines: Vec<String>)
    ensures
        text_views(lines@) == spec_listing(light_views(lights@)),
{
    let mut lines: Vec<String> = Vec::new();
    let mut i: usize = 0;
    while i < lights.len()
        invariant
            i <= lights.len(),
            lines@.len() == i,
            forall|k: int| 0 <= k < i ==> (#[trigger] lines@[k])@ == spec_light_line(lights@[k]@),
        decreases lights.len() - i,
    {
        let mut line = lights[i].name.clone();
        if lights[i].state.on {
            line.append(": ON");
        } else {
            line.append(": OFF");
        }
        lines.push(line);
        i += 1;
    }
    assert(text_views(lines@) =~= spec_listing(light_views(lights@)));
    lines
}

/// What the operator is shown for a response to the request for the
/// inventory: the diagnostic where the request failed, then one line for
/// each light.
pub open spec fn spec_list(status: u16, body: Seq<char>) -> Result<
    Seq<Seq<char>>,
    InventoryError,
> {
    match spec_inventory(status, body) {
        Ok(lights) => Ok(spec_diagnostic_lines(status) + spec_listing(lights)),
        Err(error) => Err(error),
    }
}

/// Appends the lines of `more` to `lines`.
pub fn append_lines(lines: &mut Vec<String>, more: Vec<String>)
    ensures
        text_views(final(lines)@) == text_views(old(lines)@) + text_views(more@),
{
    let ghost before = text_views(lines@);
    let mut i: usize = 0;
    while i < more.len()
        invariant
            i <= more.len(),
            text_views(lines@) == before + text_views(more@).take(i as int),
        decreases more.len() - i,
    {
        let ghost so_far = text_views(lines@);
        lines.push(more[i].clone());
        assert(text_views(lines@) =~= so_far.push(more@[i as int]@));
        assert(text_views(more@).take(i + 1) =~= text_views(more@).take(i as int).push(
            more@[i as int]@,
        ));
        assert(text_views(lines@) =~= before + text_views(more@).take(i + 1));
        i += 1;
    }
    assert(text_views(more@).take(i as int) =~= text_views(more@));
}

/// Lists the lights of the bridge from the response to `lights_request`.
pub fn list(response: &Response) -> (result: Result<Vec<String>, InventoryError>)
    ensures
        match result {
            Ok(lines) => spec_list(response.status, response.body@) == Ok::<
                Seq<Seq<char>>,
                InventoryError,
            >(text_views(lines@)),
            Err(error) => spec_list(response.status, response.body@) == Err::<
                Seq<Seq<char>>,
                InventoryError,
            >(error),
        },
{
    let lights = match get_all_lights(response) {
        Ok(lights) => lights,
        Err(error) => {
            return Err(error);
        },
    };
    let mut lines = diagnostic_lines(response);
    append_lines(&mut lines, print_lights(&lights));
    Ok(lines)
}

} // verus!
