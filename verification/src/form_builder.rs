//! Builds the form of a schema: a label and a widget for each property, in
//! the order of the document.

use crate::form_utils::{
    default_day, default_list, default_number, default_text, default_time, group_buttons,
    menu_default, preselected, FormUtils,
};
use crate::items::{ItemsRequest, ItemsRequestView, Listing, ListingView};
use crate::json::{opt_text, JsonValue, JsonView};
use crate::primitive::{opt_primitive, Primitive, PrimitiveView};
use crate::resolver::{resolve, WidgetSpec, WidgetSpecView};
use crate::schema::{ParseError, SchemaProp, SchemaPropView};
use crate::text::texts;
use crate::widget::{widget_views, CalendarDate, ControlView, Widget, WidgetView};
use vstd::prelude::*;

verus! {

/// The first state of a widget of the given kind.
pub open spec fn rendered(
    spec: WidgetSpecView,
    name: Seq<char>,
    items: Seq<Seq<char>>,
    default: Option<PrimitiveView>,
    today: CalendarDate,
) -> WidgetView {
    let truth = match default {
        Some(d) => d.truth(),
        None => false,
    };
    let control = match spec {
        WidgetSpecView::Text(c) => ControlView::Entry { text: default_text(default) },
        WidgetSpecView::TextArea(c) => ControlView::TextView { text: default_text(default) },
        WidgetSpecView::Numeric(c) => ControlView::SpinButton {
            value: default_number(default, c.initial_value),
        },
        WidgetSpecView::Slider(c) => ControlView::Slider {
            value: default_number(default, c.initial_value),
        },
        WidgetSpecView::Date(c) => ControlView::DateInput { date: default_day(default, today) },
        WidgetSpecView::Time(c) => ControlView::TimeInput { time: default_time(default) },
        WidgetSpecView::DateTime(c) => ControlView::DateTimeInput {
            date: default_day(default, today),
            time: default_time(default),
        },
        WidgetSpecView::ColorButton(c) => ControlView::ColorButton { color: default_text(default) },
        WidgetSpecView::ColorInput(c) => ControlView::ColorInput { text: default_text(default) },
        WidgetSpecView::File(c) => ControlView::FileInput { text: Seq::empty() },
        WidgetSpecView::Dir(c) => ControlView::FileInput { text: Seq::empty() },
        WidgetSpecView::Checkbox(c) => ControlView::CheckButton { active: truth },
        WidgetSpecView::Switch(c) => ControlView::Switch { active: truth },
        WidgetSpecView::Toggle(c) => ControlView::ToggleButton { active: truth },
        WidgetSpecView::DropDown(c) => ControlView::DropDown {
            items,
            selected: menu_default(items, default),
        },
        WidgetSpecView::Combobox(c) => ControlView::ComboBox {
            items,
            text: if menu_default(items, default) < items.len() {
                items[menu_default(items, default) as int]
            } else {
                Seq::empty()
            },
        },
        WidgetSpecView::RadioGroup(c) => ControlView::RadioGroup {
            buttons: group_buttons(items, default_text(default)),
        },
        WidgetSpecView::ToggleGroup(c) => ControlView::ToggleGroup {
            buttons: group_buttons(items, default_text(default)),
        },
        WidgetSpecView::Multiselect(c) => ControlView::ListView {
            items,
            selected: preselected(items, default_list(default)),
        },
        WidgetSpecView::Empty => ControlView::Container,
    };
    WidgetView { name, control }
}

/// Puts a widget of the given kind into its first state.
pub fn render(
    spec: &WidgetSpec,
    name: &str,
    items: &Vec<String>,
    default: Option<Primitive>,
    today: CalendarDate,
) -> (r: Widget)
    ensures
        r@ == rendered(spec@, name@, texts(items@), opt_primitive(default), today),
{
    let utils = FormUtils::new();
    match spec {
        WidgetSpec::Text(c) => utils.text_input(name, None, default),
        WidgetSpec::TextArea(c) => utils.textarea_input(name, None, default),
        WidgetSpec::Numeric(c) => utils.numeric_input(name, Some(c.duplicate()), default),
        WidgetSpec::Slider(c) => utils.slider(name, Some(c.duplicate()), default),
        WidgetSpec::Date(c) => utils.date_input(name, None, default, today),
        WidgetSpec::Time(c) => utils.time_input(name, None, default),
        WidgetSpec::DateTime(c) => utils.date_time_input(name, None, default, today),
        WidgetSpec::ColorButton(c) => utils.color_button(name, None, default),
        WidgetSpec::ColorInput(c) => utils.color_input(name, None, default),
        WidgetSpec::File(c) => utils.file_input(name, None),
        WidgetSpec::Dir(c) => utils.file_input(name, None),
        WidgetSpec::Checkbox(c) => utils.checkbox_or_radio(name, None, default),
        WidgetSpec::Switch(c) => utils.switch(name, None, default),
        WidgetSpec::Toggle(c) => utils.toggle_button(name, None, default),
        WidgetSpec::DropDown(c) => utils.dropdown(name, items, None, default),
        WidgetSpec::Combobox(c) => utils.combobox_text(name, items, None, default),
        WidgetSpec::RadioGroup(c) => utils.radio_group(name, items, None, default),
        WidgetSpec::ToggleGroup(c) => utils.toggle_group(name, items, None, default),
        WidgetSpec::Multiselect(c) => utils.multiselect_input(name, items, None, default),
        WidgetSpec::Empty => Widget {
            name: name.to_owned(),
            control: crate::widget::Control::Container,
        },
    }
}

/// The properties that a form is built from: those of the document where it
/// has an `$id` that is a text with something in it, and none otherwise. A
/// document without such an `$id` stands for no schematic at all.
pub open spec fn form_properties(json: JsonView) -> Seq<(Seq<char>, JsonView)> {
    match (json.member("$id"@), json.member("properties"@)) {
        (Some(JsonView::Text(id)), Some(JsonView::Object(members))) => if id.len() > 0 {
            members
        } else {
            Seq::empty()
        },
        _ => Seq::empty(),
    }
}

/// What was listed for the property at position `i`; nothing where the
/// caller brought no listing for it.
pub open spec fn listing_at(listings: Seq<ListingView>, i: int) -> ListingView {
    if 0 <= i < listings.len() {
        listings[i]
    } else {
        ListingView { base: Seq::empty(), entries: Seq::empty() }
    }
}

/// The views of a list of listings, element by element.
pub open spec fn listing_views(v: Seq<Listing>) -> Seq<ListingView> {
    Seq::new(v.len(), |i: int| v[i]@)
}

/// Whether `label` and `widget` are what the property `key` puts into the
/// form: a label that carries the message of its prompt or else its
/// description, and the widget that the property resolves to, with the
/// choices of the property and in the state that its default gives.
pub open spec fn is_built_from(
    p: SchemaPropView,
    key: Seq<char>,
    cwd: Option<Seq<char>>,
    listing: ListingView,
    today: CalendarDate,
    label: WidgetView,
    widget: WidgetView,
) -> bool {
    &&& label == (WidgetView { name: key, control: ControlView::Label { text: p.label_text() } })
    &&& exists|items: Seq<Seq<char>>| #[trigger]
        p.items(cwd, listing).met_by(items) && widget == rendered(
            WidgetSpecView::resolved(p),
            key,
            items,
            p.default,
            today,
        )
}

/// Whether `ws` is the form of the properties: for each property, in order,
/// its label and its widget.
pub open spec fn is_form_of(
    props: Seq<(Seq<char>, JsonView)>,
    cwd: Option<Seq<char>>,
    listings: Seq<ListingView>,
    today: CalendarDate,
    ws: Seq<WidgetView>,
) -> bool {
    &&& ws.len() == 2 * props.len()
    &&& forall|i: int|
        0 <= i < props.len() ==> SchemaPropView::read(#[trigger] props[i].1) is Some
            && is_built_from(
            SchemaPropView::read(props[i].1)->0,
            props[i].0,
            cwd,
            listing_at(listings, i),
            today,
            ws[2 * i],
            ws[2 * i + 1],
        )
}

/// Whether every property can be read.
pub open spec fn all_readable(props: Seq<(Seq<char>, JsonView)>) -> bool {
    forall|i: int| 0 <= i < props.len() ==> SchemaPropView::read(#[trigger] props[i].1) is Some
}

/// What has to be listed for each property of the form, in order.
pub open spec fn are_requests_of(
    props: Seq<(Seq<char>, JsonView)>,
    cwd: Option<Seq<char>>,
    rs: Seq<ItemsRequestView>,
) -> bool {
    &&& rs.len() == props.len()
    &&& forall|i: int|
        0 <= i < props.len() ==> SchemaPropView::read(#[trigger] props[i].1) is Some && rs[i]
            == SchemaPropView::read(props[i].1)->0.items_request(cwd)
}

/// The views of a list of requests, element by element.
pub open spec fn request_views(v: Seq<ItemsRequest>) -> Seq<ItemsRequestView> {
    Seq::new(v.len(), |i: int| v[i]@)
}

/// The properties that a form is built from.
fn properties_of(json: &JsonValue) -> (r: Option<&Vec<(String, JsonValue)>>)
    ensures
        match r {
            Some(members) => form_properties(json@) == crate::schema::member_views(members@),
            None => form_properties(json@).len() == 0,
        },
{
    match (json.get("$id"), json.get("properties")) {
        (Some(JsonValue::Text(id)), Some(JsonValue::Object(members))) => {
            if id.as_str().unicode_len() == 0 {
                return None;
            }
            assert(JsonValue::Object(*members)@->Object_0 =~= crate::schema::member_views(
                members@,
            ));
            Some(members)
        },
        _ => None,
    }
}

/// Says, for each property of a form, what has to be listed before the form
/// can be built. A property that cannot be read ends this.
pub fn form_requests(json: &JsonValue, cwd: &Option<String>) -> (r: Result<
    Vec<ItemsRequest>,
    ParseError,
>)
    ensures
        match r {
            Ok(rs) => are_requests_of(form_properties(json@), opt_text(*cwd), request_views(rs@)),
            Err(e) => e == ParseError::Property && !all_readable(form_properties(json@)),
        },
{
    let mut out: Vec<ItemsRequest> = Vec::new();
    let members = match properties_of(json) {
        Some(m) => m,
        None => {
            return Ok(out);
        },
    };
    let ghost props = form_properties(json@);
    let mut i: usize = 0;
    while i < members.len()
        invariant
            i <= members.len(),
            props == form_properties(json@),
            props == crate::schema::member_views(members@),
            out@.len() == i,
            forall|j: int|
                0 <= j < i ==> SchemaPropView::read(#[trigger] props[j].1) is Some && out@[j]@
                    == SchemaPropView::read(props[j].1)->0.items_request(opt_text(*cwd)),
        decreases members.len() - i,
    {
        assert(props[i as int].1 == members@[i as int].1@);
        match SchemaProp::from_json(&members[i].1) {
            Some(prop) => {
                out.push(prop.items_request(cwd));
            },
            None => {
                proof {
                    assert(SchemaPropView::read(props[i as int].1) is None);
                }
                return Err(ParseError::Property);
            },
        }
        i += 1;
    }
    Ok(out)
}

/// Builds the form of a schema. `listings` holds, for each property in
/// order, what was listed for it; `today` is the day that a calendar without
/// a default shows. A document without an `$id` gives an empty form, and a
/// property that cannot be read gives no form at all.
pub fn build_form(
    json: &JsonValue,
    cwd: &Option<String>,
    listings: &Vec<Listing>,
    today: CalendarDate,
) -> (r: Result<Vec<Widget>, ParseError>)
    ensures
        match r {
            Ok(ws) => is_form_of(
                form_properties(json@),
                opt_text(*cwd),
                listing_views(listings@),
                today,
                widget_views(ws@),
            ),
            Err(e) => e == ParseError::Property && !all_readable(form_properties(json@)),
        },
{
    let utils = FormUtils::new();
    let mut form: Vec<Widget> = Vec::new();
    let members = match properties_of(json) {
        Some(m) => m,
        None => {
            return Ok(form);
        },
    };
    let ghost props = form_properties(json@);
    let empty = Listing { base: String::new(), entries: Vec::new() };
    assert(empty@.entries =~= Seq::empty());
    let mut i: usize = 0;
    while i < members.len()
        invariant
            i <= members.len(),
            props == form_properties(json@),
            props == crate::schema::member_views(members@),
            empty@ == (ListingView { base: Seq::empty(), entries: Seq::empty() }),
            form@.len() == 2 * i,
            forall|j: int|
                0 <= j < i ==> SchemaPropView::read(#[trigger] props[j].1) is Some
                    && is_built_from(
                    SchemaPropView::read(props[j].1)->0,
                    props[j].0,
                    opt_text(*cwd),
                    listing_at(listing_views(listings@), j),
                    today,
                    form@[2 * j]@,
                    form@[2 * j + 1]@,
                ),
        decreases members.len() - i,
    {
        assert(props[i as int] == (members@[i as int].0@, members@[i as int].1@));
        let key = members[i].0.as_str();
        match SchemaProp::from_json(&members[i].1) {
            Some(prop) => {
                let label_text = prop.get_label_text();
                let label = utils.label(label_text.as_str(), key);
                let listing = if i < listings.len() {
                    &listings[i]
                } else {
                    &empty
                };
                assert(listing@ == listing_at(listing_views(listings@), i as int));
                let items = prop.get_items(cwd, listing);
                let spec = resolve(&prop, key, cwd);
                let default = match &prop.default {
                    Some(d) => Some(d.duplicate()),
                    None => None,
                };
                let widget = render(&spec, key, &items, default, today);
                proof {
                    assert(prop@.items(opt_text(*cwd), listing@).met_by(texts(items@)));
                    assert(is_built_from(
                        prop@,
                        key@,
                        opt_text(*cwd),
                        listing@,
                        today,
                        label@,
                        widget@,
                    ));
                }
                let ghost before = form@;
                form.push(label);
                form.push(widget);
                proof {
                    assert(forall|j: int| 0 <= j < 2 * i ==> form@[j] == before[j]);
                }
            },
            None => {
                proof {
                    assert(SchemaPropView::read(props[i as int].1) is None);
                }
                return Err(ParseError::Property);
            },
        }
        i += 1;
    }
    Ok(form)
}

} // verus!
