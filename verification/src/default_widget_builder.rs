//! The widget of a property that asks for none itself.

use crate::form_builder::{render, rendered};
use crate::form_utils::FormUtils;
use crate::items::{ItemsRequest, Listing};
use crate::json::opt_text;
use crate::resolver::{by_type, WidgetSpec, WidgetSpecView};
use crate::schema::SchemaProp;
use crate::text::texts;
use crate::widget::{CalendarDate, Widget};
use vstd::prelude::*;

verus! {

/// Builds the widget that the type of a property gives it.
pub struct DefaultWidgetBuilder {
    pub prop: SchemaProp,
    pub utils: FormUtils,
    pub field: String,
    pub cwd: Option<String>,
}

impl DefaultWidgetBuilder {
    pub fn new(prop: &SchemaProp, field: String, cwd: Option<String>) -> (r: Self)
        ensures
            r.prop@ == prop@,
            r.field == field,
            r.cwd == cwd,
    {
        DefaultWidgetBuilder { prop: prop.duplicate(), utils: FormUtils::new(), cwd, field }
    }

    /// The kind of widget and its configuration.
    pub fn get_spec(&self) -> (r: WidgetSpec)
        ensures
            r@ == WidgetSpecView::by_type(self.prop@),
    {
        by_type(&self.prop)
    }

    /// What has to be listed for the choices of the widget.
    pub fn items_request(&self) -> (r: ItemsRequest)
        ensures
            r@ == self.prop@.items_request(opt_text(self.cwd)),
    {
        self.prop.items_request(&self.cwd)
    }

    /// The choices of the widget, given what was listed for it.
    pub fn get_items(&self, listing: &Listing) -> (r: Vec<String>)
        ensures
            self.prop@.items(opt_text(self.cwd), listing@).met_by(texts(r@)),
    {
        self.prop.get_items(&self.cwd, listing)
    }

    /// The widget in its first state, with the choices that the listing
    /// gives and showing `today` where a calendar has no default.
    pub fn get_widget(&self, listing: &Listing, today: CalendarDate) -> (r: Widget)
        ensures
            exists|items: Seq<Seq<char>>| #[trigger]
                self.prop@.items(opt_text(self.cwd), listing@).met_by(items) && r@ == rendered(
                    WidgetSpecView::by_type(self.prop@),
                    self.field@,
                    items,
                    self.prop@.default,
                    today,
                ),
    {
        let items = self.get_items(listing);
        let spec = self.get_spec();
        let default = match &self.prop.default {
            Some(d) => Some(d.duplicate()),
            None => None,
        };
        let widget = render(&spec, self.field.as_str(), &items, default, today);
        assert(self.prop@.items(opt_text(self.cwd), listing@).met_by(texts(items@)));
        widget
    }
}

} // verus!
