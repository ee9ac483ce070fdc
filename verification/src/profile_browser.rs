//! Browsing the saved profiles of a schematic.
//!
//! The profiles lie as TOML files in a directory of their own. The browser
//! is handed what its caller found there; it decides which files are
//! profiles, how they are labelled and ordered, and which one is loaded.

use crate::profile_data_list_item::ProfileDataMenuItem;
use crate::save_dialog::{extension, extension_of, last_part, last_piece, ProfileData};
use crate::text::{concat2, concat3, pieces, same_text, starts_with};
use crate::toml_value::{parse_toml, toml_document, TomlValue, TomlView};
use crate::value_loader::data_views;
use vstd::prelude::*;

verus! {

#[derive(Debug)]
pub enum ProfileBrowserInput {
    Show(ProfileBrowserInputParams),
    Hide,
    Selected(u32),
    Clear,
    Select(String),
    FilterChange,
}

/// What the browser is opened with.
#[derive(Debug, Clone)]
pub struct ProfileBrowserInputParams {
    pub schematic: String,
    pub package_name: String,
    pub clear: bool,
    pub file: Option<String>,
}

impl ProfileBrowserInputParams {
    pub fn new(schematic: String, package_name: String, clear: bool, file: Option<String>) -> (r:
        Self)
        ensures
            r.schematic == schematic,
            r.package_name == package_name,
            r.clear == clear,
            r.file == file,
    {
        Self { schematic, package_name, clear, file }
    }
}

#[derive(Debug)]
pub enum ProfileBrowserOutput {
    Loaded(usize, String),
}

pub struct ProfileBrowserInit {}

/// A file of the directory of profiles, as the caller found it: its name,
/// whether it is a regular file, and what it holds.
#[derive(Debug, Clone, PartialEq)]
pub struct ProfileSource {
    pub file: String,
    pub is_file: bool,
    pub text: String,
}

/// Why a file could not be read as a profile.
#[derive(Debug, Clone, Copy, PartialEq, Eq, Structural)]
pub enum ProfileError {
    /// The file holds no TOML.
    NotToml,
    /// The file has no table `meta` or no table `data`.
    Incomplete,
}

/// The texts among the entries of a table, in their order.
pub open spec fn text_entries(entries: Seq<(Seq<char>, TomlView)>) -> Seq<(Seq<char>, Seq<char>)>
    decreases entries.len(),
{
    if entries.len() == 0 {
        Seq::empty()
    } else {
        let head = text_entries(entries.drop_last());
        match entries.last().1 {
            TomlView::Text(s) => head.push((entries.last().0, s)),
            _ => head,
        }
    }
}

/// The name of a file without its extension.
pub open spec fn stem(file: Seq<char>) -> Seq<char> {
    match extension(file) {
        Some(e) => last_piece(file, '/').subrange(0, last_piece(file, '/').len() - e.len() - 1),
        None => last_piece(file, '/'),
    }
}

/// The label of a profile: the name of its file without the extension, and
/// its description in brackets where it has one.
pub open spec fn label(file: Seq<char>, description: Seq<char>) -> Seq<char> {
    if description.len() > 0 {
        stem(file) + " ("@ + description + ")"@
    } else {
        stem(file)
    }
}

/// The description that a profile file gives: the text `description` of its
/// table `meta`.
pub open spec fn description_of(meta: TomlView) -> Seq<char> {
    match meta.member("description"@) {
        Some(TomlView::Text(s)) => s,
        _ => Seq::empty(),
    }
}

/// Whether a file of the directory is taken for a profile: a regular file
/// whose name ends in `.toml`.
pub open spec fn is_profile(file: Seq<char>, is_file: bool) -> bool {
    is_file && extension(file) == Some("toml"@)
}

/// What a profile file holds: title, file name and values; or why it cannot
/// be read.
pub open spec fn profile_of(file: Seq<char>, text: Seq<char>) -> Result<
    (Seq<char>, Seq<char>, Seq<(Seq<char>, Seq<char>)>),
    ProfileError,
> {
    match toml_document(text) {
        None => Err(ProfileError::NotToml),
        Some(doc) => match (doc.member("meta"@), doc.member("data"@)) {
            (Some(meta), Some(TomlView::Table(entries))) => Ok(
                (
                    label(file, description_of(meta)),
                    last_piece(file, '/'),
                    text_entries(entries),
                ),
            ),
            _ => Err(ProfileError::Incomplete),
        },
    }
}

/// The texts among the entries of a table.
pub fn collect_texts(entries: &Vec<(String, TomlValue)>) -> (r: Vec<(String, String)>)
    ensures
        data_views(r@) == text_entries((TomlValue::Table(*entries))@->Table_0),
{
    let ghost all = (TomlValue::Table(*entries))@->Table_0;
    let mut out: Vec<(String, String)> = Vec::new();
    let mut i: usize = 0;
    assert(data_views(out@) =~= Seq::empty());
    while i < entries.len()
        invariant
            i <= entries.len(),
            all.len() == entries@.len(),
            forall|j: int| 0 <= j < entries@.len() ==> all[j] == (entries@[j].0@, entries@[j].1@),
            data_views(out@) == text_entries(all.take(i as int)),
        decreases entries.len() - i,
    {
        proof {
            assert(all.take(i + 1).drop_last() == all.take(i as int));
            assert(all.take(i + 1).last() == all[i as int]);
        }
        match &entries[i].1 {
            TomlValue::Text(s) => {
                let ghost before = data_views(out@);
                out.push((entries[i].0.clone(), s.clone()));
                assert(data_views(out@) =~= before.push((entries@[i as int].0@, s@)));
            },
            _ => {},
        }
        i += 1;
    }
    proof {
        assert(all.take(entries.len() as int) == all);
    }
    out
}

/// The name of a file without its extension.
pub fn stem_of(file: &str) -> (r: String)
    ensures
        r@ == stem(file@),
{
    let name = last_part(file, '/');
    match extension_of(file) {
        Some(e) => {
            let chars = crate::text::chars_of(name.as_str());
            let cut = e.as_str().unicode_len();
            if cut >= chars.len() {
                // an extension is a part of the name after a point
                proof {
                    lemma_extension_fits(file@);
                }
                return name;
            }
            let keep = chars.len() - cut - 1;
            let mut out = String::new();
            let mut i: usize = 0;
            while i < keep
                invariant
                    i <= keep <= chars.len(),
                    out@ == chars@.subrange(0, i as int),
                decreases keep - i,
            {
                out.push(chars[i]);
                i += 1;
            }
            out
        },
        None => name,
    }
}

/// A part of a text is no longer than the text, and the last of several
/// parts is shorter by at least the separator.
pub proof fn lemma_last_piece_is_shorter(s: Seq<char>, sep: char)
    ensures
        pieces(s, sep).len() >= 1,
        pieces(s, sep).last().len() <= s.len(),
        pieces(s, sep).len() >= 2 ==> pieces(s, sep).last().len() + 1 <= s.len(),
    decreases s.len(),
{
    if s.len() > 0 {
        lemma_last_piece_is_shorter(s.drop_last(), sep);
    }
}

/// An extension, with its point, fits into the name of the file.
pub proof fn lemma_extension_fits(file: Seq<char>)
    ensures
        match extension(file) {
            Some(e) => e.len() + 1 <= last_piece(file, '/').len(),
            None => true,
        },
{
    lemma_last_piece_is_shorter(last_piece(file, '/'), '.');
}

/// Reads a profile file.
pub fn read_profile(source: &ProfileSource) -> (r: Result<ProfileData, ProfileError>)
    ensures
        match profile_of(source.file@, source.text@) {
            Ok((title, file, data)) => r is Ok && r->Ok_0.title@ == title && r->Ok_0.file@ == file
                && data_views(r->Ok_0.data@) == data,
            Err(e) => r == Err::<ProfileData, ProfileError>(e),
        },
{
    let doc = match parse_toml(source.text.as_str()) {
        Some(d) => d,
        None => {
            return Err(ProfileError::NotToml);
        },
    };
    match (doc.get("meta"), doc.get("data")) {
        (Some(meta), Some(TomlValue::Table(entries))) => {
            let description = match meta.get("description") {
                Some(TomlValue::Text(s)) => s.clone(),
                _ => String::new(),
            };
            let name = stem_of(source.file.as_str());
            let title = if description.as_str().unicode_len() > 0 {
                let head = concat3(name.as_str(), " (", description.as_str());
                concat2(head.as_str(), ")")
            } else {
                name
            };
            let file = last_part(source.file.as_str(), '/');
            Ok(ProfileData::new(title, file, collect_texts(entries)))
        },
        _ => Err(ProfileError::Incomplete),
    }
}

/// Whether a file of the directory is taken for a profile.
pub fn source_is_profile(source: &ProfileSource) -> (r: bool)
    ensures
        r == is_profile(source.file@, source.is_file),
{
    source.is_file && match extension_of(source.file.as_str()) {
        Some(e) => same_text(e.as_str(), "toml"),
        None => false,
    }
}

/// The titles of profiles.
pub open spec fn titles(profiles: Seq<ProfileData>) -> Seq<Seq<char>> {
    Seq::new(profiles.len(), |i: int| profiles[i].title@)
}

/// The file names of profiles.
pub open spec fn files(profiles: Seq<ProfileData>) -> Seq<Seq<char>> {
    Seq::new(profiles.len(), |i: int| profiles[i].file@)
}

/// Calls `sort_by_cached_key` of the standard library with the title of a
/// profile as its key. As the library documents, the vector then holds the
/// same profiles, ordered by their titles.
#[verifier::external_body]
pub(crate) fn sort_by_title(profiles: &mut Vec<ProfileData>)
    ensures
        crate::text::ascending(titles(final(profiles)@)),
        final(profiles)@.to_multiset() == old(profiles)@.to_multiset(),
{
    profiles.sort_by_cached_key(|p| p.title.clone());
}

/// The position of the first profile that lies in the file `file`.
pub fn find_profile(profiles: &Vec<ProfileData>, file: &str) -> (r: Option<usize>)
    ensures
        match crate::text::first_index(files(profiles@), file@) {
            Some(i) => r == Some(i as usize) && 0 <= i < profiles.len(),
            None => r is None,
        },
{
    let ghost all = files(profiles@);
    let mut i: usize = 0;
    while i < profiles.len()
        invariant
            i <= profiles.len(),
            all == files(profiles@),
            crate::text::first_index(all.take(i as int), file@) is None,
        decreases profiles.len() - i,
    {
        proof {
            assert(all.take(i + 1).drop_last() == all.take(i as int));
            assert(all.take(i + 1).last() == profiles@[i as int].file@);
        }
        if same_text(profiles[i].file.as_str(), file) {
            proof {
                crate::text::lemma_first_index_extends(all, file@, i + 1);
            }
            return Some(i);
        }
        i += 1;
    }
    proof {
        assert(all.take(profiles.len() as int) == all);
    }
    None
}

/// Whether two lists hold the same profiles, each as often.
pub open spec fn is_same_stock(a: Seq<ProfileData>, b: Seq<ProfileData>) -> bool {
    a.to_multiset() == b.to_multiset()
}

/// The browser of saved profiles.
#[derive(Debug)]
pub struct ProfileBrowserModel {
    pub hidden: bool,
    pub schematic: String,
    pub package_name: String,
    pub file: Option<String>,
    pub search: String,
    pub profiles: Vec<ProfileData>,
}

/// The profiles among the files, in the order of the files; the first file
/// that cannot be read ends the reading.
pub open spec fn profiles_of(sources: Seq<ProfileSource>) -> Result<
    Seq<(Seq<char>, Seq<char>, Seq<(Seq<char>, Seq<char>)>)>,
    ProfileError,
>
    decreases sources.len(),
{
    if sources.len() == 0 {
        Ok(Seq::empty())
    } else {
        match profiles_of(sources.drop_last()) {
            Err(e) => Err(e),
            Ok(head) => {
                let s = sources.last();
                if is_profile(s.file@, s.is_file) {
                    match profile_of(s.file@, s.text@) {
                        Ok(p) => Ok(head.push(p)),
                        Err(e) => Err(e),
                    }
                } else {
                    Ok(head)
                }
            },
        }
    }
}

/// Profiles as contracts see them.
pub open spec fn profile_views(profiles: Seq<ProfileData>) -> Seq<
    (Seq<char>, Seq<char>, Seq<(Seq<char>, Seq<char>)>),
> {
    Seq::new(profiles.len(), |i: int| (profiles[i].title@, profiles[i].file@, data_views(profiles[i].data@)))
}

/// Once a file could not be read, no list of profiles is had.
pub proof fn lemma_unreadable_ends_reading(sources: Seq<ProfileSource>, n: int)
    requires
        0 <= n <= sources.len(),
        profiles_of(sources.take(n)) is Err,
    ensures
        profiles_of(sources) == profiles_of(sources.take(n)),
    decreases sources.len() - n,
{
    if n < sources.len() {
        assert(sources.take(n + 1).drop_last() == sources.take(n));
        lemma_unreadable_ends_reading(sources, n + 1);
    } else {
        assert(sources.take(n) == sources);
    }
}

/// Reads the profiles among the files of the directory.
pub fn read_profiles(sources: &Vec<ProfileSource>) -> (r: Result<Vec<ProfileData>, ProfileError>)
    ensures
        match profiles_of(sources@) {
            Ok(ps) => r is Ok && profile_views(r->Ok_0@) == ps,
            Err(e) => r == Err::<Vec<ProfileData>, ProfileError>(e),
        },
{
    let mut out: Vec<ProfileData> = Vec::new();
    let mut i: usize = 0;
    assert(profile_views(out@) =~= Seq::empty());
    while i < sources.len()
        invariant
            i <= sources.len(),
            profiles_of(sources@.take(i as int)) == Ok::<
                Seq<(Seq<char>, Seq<char>, Seq<(Seq<char>, Seq<char>)>)>,
                ProfileError,
            >(profile_views(out@)),
        decreases sources.len() - i,
    {
        proof {
            assert(sources@.take(i + 1).drop_last() == sources@.take(i as int));
            assert(sources@.take(i + 1).last() == sources@[i as int]);
        }
        if source_is_profile(&sources[i]) {
            match read_profile(&sources[i]) {
                Ok(p) => {
                    let ghost before = profile_views(out@);
                    let ghost pv = (p.title@, p.file@, data_views(p.data@));
                    out.push(p);
                    assert(profile_views(out@) =~= before.push(pv));
                },
                Err(e) => {
                    proof {
                        lemma_unreadable_ends_reading(sources@, i + 1);
                    }
                    return Err(e);
                },
            }
        }
        i += 1;
    }
    proof {
        assert(sources@.take(sources.len() as int) == sources@);
    }
    Ok(out)
}

impl ProfileBrowserModel {
    /// Whether the browser lists the profiles that `ps` describes, each as
    /// often as it stands there, ordered by their titles.
    pub open spec fn lists(self, ps: Seq<(Seq<char>, Seq<char>, Seq<(Seq<char>, Seq<char>)>)>) -> bool {
        &&& crate::text::ascending(titles(self.profiles@))
        &&& exists|read: Seq<ProfileData>| #[trigger]
            profile_views(read) == ps && is_same_stock(self.profiles@, read)
    }

    /// Whether `r` is the choice of the profile in the file that `path`
    /// names: the first profile in a file of that name, which the browser then
    /// remembers; or nothing where no profile lies in such a file, and the
    /// browser remembers what it did, `before`.
    pub open spec fn chose(
        self,
        before: Option<String>,
        path: Seq<char>,
        r: Option<(usize, String)>,
    ) -> bool {
        match crate::text::first_index(files(self.profiles@), last_piece(path, '/')) {
            Some(i) => {
                &&& r is Some
                &&& (r->Some_0).0 as int == i
                &&& (r->Some_0).1@ == last_piece(path, '/')
                &&& self.file is Some
                &&& self.file->0@ == last_piece(path, '/')
            },
            None => {
                &&& r is None
                &&& self.file == before
            },
        }
    }

    /// A browser that is not shown and lists nothing.
    pub fn new() -> (r: Self)
        ensures
            r.hidden,
            r.file is None,
            r.profiles@.len() == 0,
    {
        ProfileBrowserModel {
            hidden: true,
            schematic: String::new(),
            package_name: String::new(),
            search: String::new(),
            profiles: Vec::new(),
            file: None,
        }
    }

    /// Whether the label of a line passes the filter that the user typed.
    pub fn passes_filter(&self, item: &ProfileDataMenuItem) -> (r: bool)
        ensures
            r == self.search@.is_prefix_of(item.label@),
    {
        starts_with(item.label.as_str(), self.search.as_str())
    }

    /// The lines of the list: one for each profile, in the order of the
    /// profiles.
    pub fn menu_items(&self) -> (r: Vec<ProfileDataMenuItem>)
        ensures
            r@.len() == self.profiles@.len(),
            forall|i: int|
                0 <= i < r@.len() ==> r@[i].file@ == self.profiles@[i].file@ && r@[i].label@
                    == self.profiles@[i].title@,
    {
        let mut out: Vec<ProfileDataMenuItem> = Vec::new();
        let mut i: usize = 0;
        while i < self.profiles.len()
            invariant
                i <= self.profiles.len(),
                out@.len() == i,
                forall|j: int|
                    0 <= j < i ==> out@[j].file@ == self.profiles@[j].file@ && out@[j].label@
                        == self.profiles@[j].title@,
            decreases self.profiles.len() - i,
        {
            out.push(
                ProfileDataMenuItem::new(
                    self.profiles[i].file.clone(),
                    self.profiles[i].title.clone(),
                ),
            );
            i += 1;
        }
        out
    }

    /// Forgets everything and hides the browser.
    pub fn clear(&mut self)
        ensures
            final(self).hidden,
            final(self).file is None,
            final(self).search@.len() == 0,
            final(self).profiles@.len() == 0,
            final(self).schematic@.len() == 0,
            final(self).package_name == old(self).package_name,
    {
        self.hidden = true;
        self.file = None;
        self.search = String::new();
        self.profiles.clear();
        self.schematic = String::new();
    }

    /// Takes the profiles that were read, ordered by their titles.
    pub fn add_profile_data(&mut self, sources: &Vec<ProfileSource>) -> (r: Result<(), ProfileError>)
        ensures
            final(self).hidden == old(self).hidden,
            final(self).schematic == old(self).schematic,
            final(self).package_name == old(self).package_name,
            final(self).file == old(self).file,
            final(self).search == old(self).search,
            match profiles_of(sources@) {
                Ok(ps) => {
                    &&& r is Ok
                    &&& crate::text::ascending(titles(final(self).profiles@))
                    &&& exists|read: Seq<ProfileData>| #[trigger]
                        profile_views(read) == ps && is_same_stock(
                            final(self).profiles@,
                            old(self).profiles@ + read,
                        )
                },
                Err(e) => {
                    &&& r matches Err(x)
                    &&& x == e
                    &&& final(self).profiles == old(self).profiles
                },
            },
    {
        match read_profiles(sources) {
            Ok(mut read) => {
                let ghost taken = read@;
                let ghost before = self.profiles@;
                self.profiles.append(&mut read);
                assert(self.profiles@ == before + taken);
                sort_by_title(&mut self.profiles);
                assert(profile_views(taken) == profiles_of(sources@)->Ok_0);
                Ok(())
            },
            Err(e) => Err(e),
        }
    }

    /// Takes a message. `sources` is what lies in the directory of the
    /// profiles of the schematic that the message is about. What comes back
    /// is the profile to load, if the message chose one: its position among
    /// the profiles and the name of its file. Showing the browser reads the
    /// profiles anew; choosing a profile by its file reads them only where
    /// the browser lists none. A file that cannot be read as a profile ends
    /// either with the error, and no profile is chosen.
    pub fn update(&mut self, message: ProfileBrowserInput, sources: &Vec<ProfileSource>) -> (r:
        Result<Option<(usize, String)>, ProfileError>)
        ensures
            match message {
                ProfileBrowserInput::Hide => {
                    &&& r matches Ok(None)
                    &&& *final(self) == (ProfileBrowserModel { hidden: true, ..*old(self) })
                },
                ProfileBrowserInput::Clear => {
                    &&& r matches Ok(None)
                    &&& final(self).hidden
                    &&& final(self).file is None
                    &&& final(self).profiles@.len() == 0
                    &&& final(self).search@.len() == 0
                    &&& final(self).schematic@.len() == 0
                    &&& final(self).package_name == old(self).package_name
                },
                ProfileBrowserInput::FilterChange => {
                    &&& r matches Ok(None)
                    &&& *final(self) == *old(self)
                },
                ProfileBrowserInput::Selected(at) => {
                    &&& final(self).profiles == old(self).profiles
                    &&& final(self).hidden == old(self).hidden
                    &&& final(self).schematic == old(self).schematic
                    &&& final(self).package_name == old(self).package_name
                    &&& final(self).search == old(self).search
                    &&& if at < old(self).profiles@.len() {
                        &&& r matches Ok(Some((i, file)))
                        &&& i == at
                        &&& file@ == old(self).profiles@[at as int].file@
                        &&& final(self).file is Some
                        &&& final(self).file->0@ == file@
                    } else {
                        &&& r matches Ok(None)
                        &&& final(self).file == old(self).file
                    }
                },
                ProfileBrowserInput::Show(p) => {
                    &&& final(self).schematic == p.schematic
                    &&& final(self).package_name == p.package_name
                    &&& if p.clear {
                        final(self).search@.len() == 0
                    } else {
                        final(self).search == old(self).search
                    }
                    &&& match profiles_of(sources@) {
                        Ok(ps) => {
                            &&& r is Ok
                            &&& !final(self).hidden
                            &&& final(self).lists(ps)
                            &&& match p.file {
                                Some(path) => final(self).chose(
                                    if p.clear {
                                        None
                                    } else {
                                        old(self).file
                                    },
                                    path@,
                                    r->Ok_0,
                                ),
                                None => {
                                    &&& r->Ok_0 is None
                                    &&& final(self).file == if p.clear {
                                        None
                                    } else {
                                        old(self).file
                                    }
                                },
                            }
                        },
                        Err(e) => {
                            &&& r matches Err(x)
                            &&& x == e
                            &&& final(self).hidden == (p.clear || old(self).hidden)
                            &&& final(self).profiles@.len() == 0
                            &&& final(self).file == if p.clear {
                                None
                            } else {
                                old(self).file
                            }
                        },
                    }
                },
                ProfileBrowserInput::Select(profile) => {
                    &&& final(self).hidden == old(self).hidden
                    &&& final(self).schematic == old(self).schematic
                    &&& final(self).package_name == old(self).package_name
                    &&& final(self).search == old(self).search
                    &&& if old(self).profiles@.len() > 0 {
                        &&& r is Ok
                        &&& final(self).profiles == old(self).profiles
                        &&& final(self).chose(old(self).file, profile@, r->Ok_0)
                    } else {
                        match profiles_of(sources@) {
                            Ok(ps) => {
                                &&& r is Ok
                                &&& final(self).lists(ps)
                                &&& final(self).chose(old(self).file, profile@, r->Ok_0)
                            },
                            Err(e) => {
                                &&& r matches Err(x)
                                &&& x == e
                                &&& final(self).profiles == old(self).profiles
                                &&& final(self).file == old(self).file
                            },
                        }
                    }
                },
            },
    {
        match message {
            ProfileBrowserInput::Show(params) => {
                if params.clear {
                    self.clear();
                } else {
                    self.profiles.clear();
                }
                self.schematic = params.schematic;
                self.package_name = params.package_name;
                match self.add_profile_data(sources) {
                    Ok(()) => {},
                    Err(e) => {
                        return Err(e);
                    },
                }
                self.hidden = false;
                match params.file {
                    Some(file) => Ok(self.select(file.as_str())),
                    None => Ok(None),
                }
            },
            ProfileBrowserInput::Select(profile) => {
                if self.profiles.len() == 0 {
                    match self.add_profile_data(sources) {
                        Ok(()) => {},
                        Err(e) => {
                            return Err(e);
                        },
                    }
                }
                Ok(self.select(profile.as_str()))
            },
            ProfileBrowserInput::Hide => {
                self.hidden = true;
                Ok(None)
            },
            ProfileBrowserInput::Clear => {
                self.clear();
                Ok(None)
            },
            ProfileBrowserInput::Selected(selected) => {
                let at = selected as usize;
                if at < self.profiles.len() {
                    let file = self.profiles[at].file.clone();
                    self.file = Some(file.clone());
                    Ok(Some((at, file)))
                } else {
                    Ok(None)
                }
            },
            ProfileBrowserInput::FilterChange => Ok(None),
        }
    }

    /// Chooses the profile that lies in the file that `path` names, and
    /// remembers the file.
    pub fn select(&mut self, path: &str) -> (r: Option<(usize, String)>)
        ensures
            final(self).profiles == old(self).profiles,
            final(self).hidden == old(self).hidden,
            final(self).schematic == old(self).schematic,
            final(self).package_name == old(self).package_name,
            final(self).search == old(self).search,
            match crate::text::first_index(files(old(self).profiles@), last_piece(path@, '/')) {
                Some(i) => {
                    &&& r is Some
                    &&& (r->Some_0).0 as int == i
                    &&& 0 <= i < old(self).profiles@.len()
                    &&& old(self).profiles@[i].file@ == last_piece(path@, '/')
                    &&& (r->Some_0).1@ == last_piece(path@, '/')
                    &&& final(self).file is Some
                    &&& final(self).file->0@ == last_piece(path@, '/')
                },
                None => {
                    &&& r is None
                    &&& final(self).file == old(self).file
                },
            },
    {
        let name = last_part(path, '/');
        match find_profile(&self.profiles, name.as_str()) {
            Some(i) => {
                proof {
                    crate::text::lemma_first_index_is_least(files(self.profiles@), name@);
                    assert(files(self.profiles@)[i as int] == self.profiles@[i as int].file@);
                }
                self.file = Some(name.clone());
                Some((i, name))
            },
            None => None,
        }
    }
}

} // verus!
