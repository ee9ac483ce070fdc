//! The widget of a property that asks for one itself.

use crate::form_builder::{render, rendered};
use crate::form_utils::FormUtils;
use crate::items::{ItemsRequest, Listing};
use crate::json::opt_text;
use crate::resolver::{asked_for, WidgetSpec, WidgetSpecView};
use crate::schema::{SchemaProp, XWidget};
use crate::text::texts;
use crate::widget::{CalendarDate, Widget};
use vstd::prelude::*;

verus! {

/// Builds the widget that a property asks for.
pub struct XWidgetBuilder {
    pub prop: SchemaProp,
    pub xwidget: XWidget,
    pub utils: FormUtils,
    pub field: String,
    pub cwd: Option<String>,
}

impl XWidgetBuilder {
    /// A builder for a property that asks for a widget.
    pub fn new(prop: &SchemaProp, field: String, cwd: Option<String>) -> (r: Self)
        requires
            prop.x_widget is Some,
        ensures
            r.prop@ == prop@,
            r.xwidget@ == prop@.x_widget->0,
            r.field == field,
            r.cwd == cwd,
    {
        let xwidget = match &prop.x_widget {
            Some(w) => w.duplicate(),
            None => XWidget { options: crate::schema::XWidgetType::default() },
        };
        XWidgetBuilder { prop: prop.duplicate(), xwidget, utils: FormUtils::new(), field, cwd }
    }

    /// The kind of widget and its configuration, as the property asks for
    /// them.
    pub fn get_spec(&self) -> (r: WidgetSpec)
        ensures
            r@ == WidgetSpecView::asked_for(self.xwidget@.options),
    {
        asked_for(&self.xwidget.options)
    }

    /// What has to be listed for the choices of the widget.
    pub fn items_request(&self) -> (r: ItemsRequest)
        ensures
            r@ == self.prop@.items_request(opt_text(self.cwd)),
    {
        self.prop.items_request(&self.cwd)
    }

    /// The choices of the widget, given what was listed for it.
    pub fn get_items(&self, listing: &Listing) -> (r: Vec<String>)
        ensures
            self.prop@.items(opt_text(self.cwd), listing@).met_by(texts(r@)),
    {
        self.prop.get_items(&self.cwd, listing)
    }

    /// The widget in its first state, with the choices that the listing
    /// gives and showing `today` where a calendar has no default.
    pub fn get_widget(&self, listing: &Listing, today: CalendarDate) -> (r: Widget)
        ensures
            exists|items: Seq<Seq<char>>| #[trigger]
                self.prop@.items(opt_text(self.cwd), listing@).met_by(items) && r@ == rendered(
                    WidgetSpecView::asked_for(self.xwidget@.options),
                    self.field@,
                    items,
                    self.prop@.default,
                    today,
                ),
    {
        let items = self.get_items(listing);
        let spec = self.get_spec();
        let default = match &self.prop.default {
            Some(d) => Some(d.duplicate()),
            None => None,
        };
        let widget = render(&spec, self.field.as_str(), &items, default, today);
        assert(self.prop@.items(opt_text(self.cwd), listing@).met_by(texts(items@)));
        widget
    }
}

} // verus!
