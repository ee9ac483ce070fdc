//! The choices of a menu.
//!
//! The choices come from the `enum` of the property, from the items of its
//! prompt, or, where the items are a directive, from the project on disk.
//! This module never looks at the disk: it says what has to be listed, and
//! turns the listing that its caller brings into the choices.

use crate::json::opt_text;
use crate::pattern::{find_group, group_view, pattern_group};
use crate::primitive::copy_texts;
use crate::schema::{
    dir_pattern, files_pattern, SchemaProp, SchemaPropView, StringOrPrompt, StringOrPromptView,
};
use crate::text::{
    ascending, ends_with, first_index, position, same_text, sort_texts, substitute, substituted,
    texts,
};
use vstd::prelude::*;

verus! {

/// What has to be listed before the choices of a property are known.
#[derive(Debug, Clone, PartialEq)]
pub enum ItemsRequest {
    /// Nothing: the choices are known already.
    Nothing,
    /// The names of the directories directly under `src` in `cwd`.
    Modules { cwd: String },
    /// The paths of the files below `src` in `cwd` that lie, at any depth,
    /// in a directory called `models`.
    Models { cwd: String },
    /// The names of the directories, or of the files, directly under
    /// `subpath` in `cwd`, or directly under `cwd` where there is no such
    /// path.
    Entries { cwd: String, subpath: String, dirs: bool },
}

pub enum ItemsRequestView {
    Nothing,
    Modules { cwd: Seq<char> },
    Models { cwd: Seq<char> },
    Entries { cwd: Seq<char>, subpath: Seq<char>, dirs: bool },
}

impl View for ItemsRequest {
    type V = ItemsRequestView;

    open spec fn view(&self) -> ItemsRequestView {
        match self {
            ItemsRequest::Nothing => ItemsRequestView::Nothing,
            ItemsRequest::Modules { cwd } => ItemsRequestView::Modules { cwd: cwd@ },
            ItemsRequest::Models { cwd } => ItemsRequestView::Models { cwd: cwd@ },
            ItemsRequest::Entries { cwd, subpath, dirs } => ItemsRequestView::Entries {
                cwd: cwd@,
                subpath: subpath@,
                dirs: *dirs,
            },
        }
    }
}

/// The directory that is read for the entries under a path of the working
/// directory: the path itself where it is there, and the working directory
/// where it is not. `joined` is the working directory and the path put
/// together, and `joined_exists` says whether anything lies there.
pub open spec fn listed_directory(cwd: Seq<char>, joined: Seq<char>, joined_exists: bool) -> Seq<
    char,
> {
    if joined_exists {
        joined
    } else {
        cwd
    }
}

/// The directory that is read for the entries under a path of the working
/// directory.
pub fn listing_path(cwd: &str, joined: &str, joined_exists: bool) -> (r: String)
    ensures
        r@ == listed_directory(cwd@, joined@, joined_exists),
{
    if joined_exists {
        joined.to_owned()
    } else {
        cwd.to_owned()
    }
}

/// What was listed: the directory that was read, and what was found there.
#[derive(Debug, Clone, PartialEq)]
pub struct Listing {
    pub base: String,
    pub entries: Vec<String>,
}

pub struct ListingView {
    pub base: Seq<char>,
    pub entries: Seq<Seq<char>>,
}

impl View for Listing {
    type V = ListingView;

    open spec fn view(&self) -> ListingView {
        ListingView { base: self.base@, entries: texts(self.entries@) }
    }
}

/// The path below the working directory that a directive names: what the
/// search found, the root where it found nothing.
pub open spec fn subpath_of(found: Option<Option<Seq<char>>>) -> Seq<char> {
    match found {
        Some(Some(path)) => path,
        _ => "/"@,
    }
}

/// The name of a model: the path of its file without the directory that was
/// read and without the ending `.ts`.
pub open spec fn model_name(base: Seq<char>, path: Seq<char>) -> Seq<char> {
    substituted(substituted(path, base, Seq::empty()), "model.ts"@, "model"@)
}

/// The names of the models among `paths`, in their order: one for each path
/// that ends in `model.ts`.
pub open spec fn model_names(base: Seq<char>, paths: Seq<Seq<char>>) -> Seq<Seq<char>>
    decreases paths.len(),
{
    if paths.len() == 0 {
        Seq::empty()
    } else {
        let head = model_names(base, paths.drop_last());
        if "model.ts"@.is_suffix_of(paths.last()) {
            head.push(model_name(base, paths.last()))
        } else {
            head
        }
    }
}

/// Whether `r` holds exactly the texts of `l`, each as often, in ascending
/// order.
pub open spec fn is_sorted_form_of(r: Seq<Seq<char>>, l: Seq<Seq<char>>) -> bool {
    ascending(r) && r.to_multiset() == l.to_multiset()
}

/// The choices of a property: a list as it stands, or a list to be shown in
/// ascending order.
pub enum ItemsPlan {
    AsGiven(Seq<Seq<char>>),
    Sorted(Seq<Seq<char>>),
}

impl ItemsPlan {
    /// Whether `r` is what the plan asks for.
    pub open spec fn met_by(self, r: Seq<Seq<char>>) -> bool {
        match self {
            ItemsPlan::AsGiven(l) => r == l,
            ItemsPlan::Sorted(l) => is_sorted_form_of(r, l),
        }
    }
}

impl StringOrPromptView {
    /// Whether the choices are a single text that begins with a dollar sign.
    pub open spec fn is_directive(self) -> bool {
        match self.items() {
            Some(crate::schema::VecOrStringView::Str(s)) => s.len() > 0 && s[0] == '$',
            _ => false,
        }
    }

    /// Whether the choices cannot be listed without a working directory: they
    /// are one of the four directives, or look like a directive.
    pub open spec fn needs_directory(self) -> bool {
        self.has_modules() || self.has_models() || self.has_dirs() || self.has_files()
            || self.is_directive()
    }

    /// The path that a directory or file directive names. It is searched in
    /// the first of the items.
    pub open spec fn subpath(self, is_dirs: bool) -> Seq<char> {
        if self.list().len() == 0 {
            "/"@
        } else {
            subpath_of(
                pattern_group(
                    if is_dirs {
                        dir_pattern()
                    } else {
                        files_pattern()
                    },
                    self.list()[0],
                ),
            )
        }
    }
}

impl SchemaPropView {
    /// Whether the choices come from the prompt.
    pub open spec fn prompts_items(self) -> bool {
        (self.kind == "array"@ || self.kind == "string"@) && self.x_prompt is Some
            && self.x_prompt->0.has_items()
    }

    /// Whether the choices are the `enum` of the property.
    pub open spec fn lists_enum(self) -> bool {
        self.kind == "string"@ && self.enum_values is Some
    }

    /// What has to be listed for the choices of the property. Nothing can be
    /// listed without a working directory; the directives are looked for in
    /// the order modules, models, directories, files.
    pub open spec fn items_request(self, cwd: Option<Seq<char>>) -> ItemsRequestView {
        if !self.lists_enum() && self.prompts_items() && cwd is Some {
            let prompt = self.x_prompt->0;
            if prompt.has_modules() {
                ItemsRequestView::Modules { cwd: cwd->0 }
            } else if prompt.has_models() {
                ItemsRequestView::Models { cwd: cwd->0 }
            } else if prompt.has_dirs() {
                ItemsRequestView::Entries { cwd: cwd->0, subpath: prompt.subpath(true), dirs: true }
            } else if prompt.has_files() {
                ItemsRequestView::Entries {
                    cwd: cwd->0,
                    subpath: prompt.subpath(false),
                    dirs: false,
                }
            } else {
                ItemsRequestView::Nothing
            }
        } else {
            ItemsRequestView::Nothing
        }
    }

    /// The choices of the property, given what was listed for it. Choices
    /// that need a working directory which is not known yet are replaced by
    /// one line that says so, so that the list is never empty for want of a
    /// directory.
    pub open spec fn items(self, cwd: Option<Seq<char>>, listing: ListingView) -> ItemsPlan {
        if self.lists_enum() {
            ItemsPlan::AsGiven(self.enum_values->0)
        } else if self.prompts_items() {
            let prompt = self.x_prompt->0;
            match self.items_request(cwd) {
                ItemsRequestView::Modules { cwd } => ItemsPlan::Sorted(listing.entries),
                ItemsRequestView::Models { cwd } => ItemsPlan::Sorted(
                    model_names(listing.base, listing.entries),
                ),
                ItemsRequestView::Entries { cwd, subpath, dirs } => ItemsPlan::Sorted(
                    listing.entries,
                ),
                ItemsRequestView::Nothing => if cwd is None && prompt.needs_directory() {
                    ItemsPlan::AsGiven(seq!["Select current working directory!"@])
                } else {
                    ItemsPlan::AsGiven(prompt.list())
                },
            }
        } else {
            ItemsPlan::AsGiven(Seq::empty())
        }
    }
}

/// The path below the working directory that a directive names.
pub fn subpath_from(found: Option<Option<String>>) -> (r: String)
    ensures
        r@ == subpath_of(group_view(found)),
{
    match found {
        Some(Some(path)) => path,
        _ => "/".to_owned(),
    }
}

/// The texts of a list in ascending order.
pub fn sorted_copy(entries: &Vec<String>) -> (r: Vec<String>)
    ensures
        is_sorted_form_of(texts(r@), texts(entries@)),
{
    let mut out = copy_texts(entries);
    sort_texts(&mut out);
    out
}

impl StringOrPrompt {
    /// Whether the choices are a single text that begins with a dollar sign.
    pub fn is_directive(&self) -> (r: bool)
        ensures
            r == self@.is_directive(),
    {
        match self {
            StringOrPrompt::Prompt(x) => match &x.items {
                Some(crate::schema::VecOrString::Str(s)) => {
                    let s = s.as_str();
                    s.unicode_len() > 0 && s.get_char(0) == '$'
                },
                _ => false,
            },
            _ => false,
        }
    }

    /// Whether the choices cannot be listed without a working directory.
    pub fn needs_directory(&self) -> (r: bool)
        ensures
            r == self@.needs_directory(),
    {
        self.has_modules() || self.has_models() || self.has_dirs() || self.has_files()
            || self.is_directive()
    }

    /// The names of the modules, in ascending order. `entries` are the names
    /// of the directories directly under `src` in the working directory.
    pub fn get_modules(&self, entries: &Vec<String>) -> (r: Vec<String>)
        ensures
            is_sorted_form_of(texts(r@), texts(entries@)),
    {
        sorted_copy(entries)
    }

    /// The path that a directory or file directive names.
    pub fn dirs_or_files_subpath(&self, is_dirs: bool) -> (r: String)
        ensures
            r@ == self@.subpath(is_dirs),
    {
        let items = self.get_items();
        if items.len() == 0 {
            return "/".to_owned();
        }
        assert(texts(items@)[0] == items@[0]@);
        let found = if is_dirs {
            find_group("\\$dir:([a-zA-Z0-9\\/\\-]+)", items[0].as_str())
        } else {
            find_group("\\$files:([a-zA-Z0-9\\/\\-]+)", items[0].as_str())
        };
        subpath_from(found)
    }

    /// The names of the directories or files, in ascending order. `entries`
    /// are the names found under the path that the directive names.
    pub fn get_dirs_or_files(&self, entries: &Vec<String>) -> (r: Vec<String>)
        ensures
            is_sorted_form_of(texts(r@), texts(entries@)),
    {
        sorted_copy(entries)
    }

    /// The names of the models, in ascending order. `paths` are the paths of
    /// the files found below `base` in directories called `models`.
    pub fn get_models(&self, base: &str, paths: &Vec<String>) -> (r: Vec<String>)
        ensures
            is_sorted_form_of(texts(r@), model_names(base@, texts(paths@))),
    {
        let mut out: Vec<String> = Vec::new();
        let mut i: usize = 0;
        assert(texts(out@) =~= Seq::empty());
        while i < paths.len()
            invariant
                i <= paths.len(),
                texts(out@) == model_names(base@, texts(paths@).take(i as int)),
            decreases paths.len() - i,
        {
            proof {
                let next = texts(paths@).take(i + 1);
                assert(next.drop_last() == texts(paths@).take(i as int));
                assert(next.last() == paths@[i as int]@);
                crate::text::lemma_empty_literal();
            }
            let path = paths[i].as_str();
            if ends_with(path, "model.ts") {
                let relative = substitute(path, base, "");
                let name = substitute(relative.as_str(), "model.ts", "model");
                let ghost before = texts(out@);
                out.push(name);
                assert(texts(out@) =~= before.push(name@));
            }
            i += 1;
        }
        proof {
            assert(texts(paths@).take(paths.len() as int) == texts(paths@));
        }
        sort_texts(&mut out);
        out
    }
}

impl SchemaProp {
    /// Whether the choices come from the prompt.
    pub fn prompts_items(&self) -> (r: bool)
        ensures
            r == self@.prompts_items(),
    {
        let kind = self.kind.as_str();
        (same_text(kind, "array") || same_text(kind, "string")) && match &self.x_prompt {
            Some(p) => p.has_items(),
            None => false,
        }
    }

    /// Whether the choices are the `enum` of the property.
    pub fn lists_enum(&self) -> (r: bool)
        ensures
            r == self@.lists_enum(),
    {
        same_text(self.kind.as_str(), "string") && self.enum_values.is_some()
    }

    /// What has to be listed for the choices of the property.
    pub fn items_request(&self, cwd: &Option<String>) -> (r: ItemsRequest)
        ensures
            r@ == self@.items_request(opt_text(*cwd)),
    {
        if self.lists_enum() || !self.prompts_items() {
            return ItemsRequest::Nothing;
        }
        match (&self.x_prompt, cwd) {
            (Some(prompt), Some(dir)) => {
                if prompt.has_modules() {
                    ItemsRequest::Modules { cwd: dir.clone() }
                } else if prompt.has_models() {
                    ItemsRequest::Models { cwd: dir.clone() }
                } else if prompt.has_dirs() {
                    ItemsRequest::Entries {
                        cwd: dir.clone(),
                        subpath: prompt.dirs_or_files_subpath(true),
                        dirs: true,
                    }
                } else if prompt.has_files() {
                    ItemsRequest::Entries {
                        cwd: dir.clone(),
                        subpath: prompt.dirs_or_files_subpath(false),
                        dirs: false,
                    }
                } else {
                    ItemsRequest::Nothing
                }
            },
            _ => ItemsRequest::Nothing,
        }
    }

    /// The choices of the property, given what was listed for it.
    pub fn get_items(&self, cwd: &Option<String>, listing: &Listing) -> (r: Vec<String>)
        ensures
            self@.items(opt_text(*cwd), listing@).met_by(texts(r@)),
    {
        if self.lists_enum() {
            return match &self.enum_values {
                Some(e) => copy_texts(e),
                None => Vec::new(),
            };
        }
        if !self.prompts_items() {
            let none: Vec<String> = Vec::new();
            assert(texts(none@) =~= Seq::empty());
            return none;
        }
        match &self.x_prompt {
            Some(prompt) => {
                match self.items_request(cwd) {
                    ItemsRequest::Modules { cwd } => prompt.get_modules(&listing.entries),
                    ItemsRequest::Models { cwd } => prompt.get_models(
                        listing.base.as_str(),
                        &listing.entries,
                    ),
                    ItemsRequest::Entries { cwd, subpath, dirs } => prompt.get_dirs_or_files(
                        &listing.entries,
                    ),
                    ItemsRequest::Nothing => {
                        if cwd.is_none() && prompt.needs_directory() {
                            prompt.get_items_placeholder()
                        } else {
                            prompt.get_items()
                        }
                    },
                }
            },
            None => Vec::new(),
        }
    }
}

/// Reading the file system is left to the caller; what is decided here is
/// which of the files that were found count.
pub struct FileUtils {}

impl FileUtils {
    /// Whether a file counts: any file where no directory names are given,
    /// and otherwise a file that has one of the given names among the names
    /// on its path.
    pub open spec fn counts(components: Seq<Seq<char>>, allowed: Seq<Seq<char>>) -> bool {
        allowed.len() == 0 || exists|i: int|
            0 <= i < components.len() && first_index(allowed, #[trigger] components[i]) is Some
    }

    /// Whether a file counts. `components` are the names on its path.
    pub fn is_allowed(components: &Vec<String>, allowed: &Vec<String>) -> (r: bool)
        ensures
            r == FileUtils::counts(texts(components@), texts(allowed@)),
    {
        if allowed.len() == 0 {
            return true;
        }
        let mut i: usize = 0;
        while i < components.len()
            invariant
                i <= components.len(),
                allowed.len() > 0,
                forall|j: int|
                    0 <= j < i ==> first_index(texts(allowed@), #[trigger] texts(components@)[j])
                        is None,
            decreases components.len() - i,
        {
            assert(texts(components@)[i as int] == components@[i as int]@);
            if position(allowed, components[i].as_str()).is_some() {
                return true;
            }
            i += 1;
        }
        false
    }
}

} // verus!
