//! What a package says of itself.

use crate::json::{json_document, opt_text, parse_json, JsonValue, JsonView};
use crate::schema::{optional_text, read_optional_text};

use vstd::prelude::*;

verus! {

/// The part of a package description that is shown.
#[derive(Debug, Clone)]
pub struct PartialPackageJsonData {
    pub name: String,
    pub version: String,
    pub description: Option<String>,
    pub author: Option<AuthorType>,
    pub homepage: Option<String>,
    pub bugs: Option<BugsType>,
    pub repository: Option<RepoType>,
}

#[derive(Debug, Clone)]
pub struct RepoObject {
    pub url: String,
    pub kind: Option<String>,
    pub directory: Option<String>,
}

#[derive(Debug, Clone)]
pub enum RepoType {
    Obj(RepoObject),
    String(String),
}

#[derive(Debug, Clone)]
pub struct BugsObject {
    pub url: String,
    pub email: Option<String>,
}

#[derive(Debug, Clone)]
pub enum BugsType {
    Obj(BugsObject),
    String(String),
}

#[derive(Debug, Clone)]
pub struct AuthorObject {
    pub name: String,
    pub email: Option<String>,
    pub url: Option<String>,
}

#[derive(Debug, Clone)]
pub enum AuthorType {
    Obj(AuthorObject),
    String(String),
}

#[derive(Debug)]
pub enum PackageInfoInput {
    Show(String),
}

#[derive(Debug)]
pub enum PackageInfoOutput {
    PackageData(PartialPackageJsonData),
}

/// What a member says that is a contact: a text, or an object whose member
/// `key` is a text. The outer result is nothing where the member is there
/// and is neither; the inner one where it is missing.
pub open spec fn contact(v: JsonView, member: Seq<char>, key: Seq<char>) -> Option<
    Option<Seq<char>>,
> {
    match v.present(member) {
        None => Some(None),
        Some(JsonView::Text(s)) => Some(Some(s)),
        Some(x) => match (x.member(key), optional_text(x, "email"@), optional_text(x, "url"@)) {
            (Some(JsonView::Text(s)), Some(_), Some(_)) => Some(Some(s)),
            _ => None,
        },
    }
}

/// What is shown of a package, each line as text.
pub struct PackageSummary {
    pub name: Seq<char>,
    pub version: Seq<char>,
    pub description: Seq<char>,
    pub author: Seq<char>,
    pub bugs: Seq<char>,
    pub repository: Seq<char>,
    pub homepage: Seq<char>,
}

/// A text, or `Unknown` where there is none.
pub open spec fn or_unknown(t: Option<Seq<char>>) -> Seq<char> {
    match t {
        Some(s) => s,
        None => "Unknown"@,
    }
}

impl PartialPackageJsonData {
    /// The name of the author, where the package names one.
    pub open spec fn author_text(self) -> Option<Seq<char>> {
        match self.author {
            Some(AuthorType::String(s)) => Some(s@),
            Some(AuthorType::Obj(o)) => Some(o.name@),
            None => None,
        }
    }

    /// Where bugs are reported, where the package says so.
    pub open spec fn bugs_text(self) -> Option<Seq<char>> {
        match self.bugs {
            Some(BugsType::String(s)) => Some(s@),
            Some(BugsType::Obj(o)) => Some(o.url@),
            None => None,
        }
    }

    /// Where the sources lie, where the package says so.
    pub open spec fn repository_text(self) -> Option<Seq<char>> {
        match self.repository {
            Some(RepoType::String(s)) => Some(s@),
            Some(RepoType::Obj(o)) => Some(o.url@),
            None => None,
        }
    }

    /// What is shown of the package.
    pub open spec fn summary(self) -> PackageSummary {
        PackageSummary {
            name: self.name@,
            version: self.version@,
            description: or_unknown(opt_text(self.description)),
            author: or_unknown(self.author_text()),
            bugs: or_unknown(self.bugs_text()),
            repository: or_unknown(self.repository_text()),
            homepage: or_unknown(opt_text(self.homepage)),
        }
    }

    /// Whether a document describes a package: an object with the texts
    /// `name` and `version`, in which `description` and `homepage` are texts
    /// where they are there and `author`, `bugs` and `repository` are
    /// contacts.
    pub open spec fn describes(v: JsonView) -> bool {
        &&& v.member("name"@) matches Some(JsonView::Text(_))
        &&& v.member("version"@) matches Some(JsonView::Text(_))
        &&& optional_text(v, "description"@) is Some
        &&& optional_text(v, "homepage"@) is Some
        &&& contact(v, "author"@, "name"@) is Some
        &&& contact(v, "bugs"@, "url"@) is Some
        &&& contact(v, "repository"@, "url"@) is Some
    }

    /// Reads the description of a package.
    pub fn from_json(v: &JsonValue) -> (r: Option<PartialPackageJsonData>)
        ensures
            r is Some <==> PartialPackageJsonData::describes(v@),
            r matches Some(p) ==> {
                &&& Some(JsonView::Text(p.name@)) == v@.member("name"@)
                &&& Some(JsonView::Text(p.version@)) == v@.member("version"@)
                &&& Some(opt_text(p.description)) == optional_text(v@, "description"@)
                &&& Some(opt_text(p.homepage)) == optional_text(v@, "homepage"@)
                &&& Some(p.author_text()) == contact(v@, "author"@, "name"@)
                &&& Some(p.bugs_text()) == contact(v@, "bugs"@, "url"@)
                &&& Some(p.repository_text()) == contact(v@, "repository"@, "url"@)
            },
    {
        let (name, version) = match (v.get("name"), v.get("version")) {
            (Some(JsonValue::Text(n)), Some(JsonValue::Text(ver))) => (n.clone(), ver.clone()),
            _ => {
                return None;
            },
        };
        let description = match read_optional_text(v, "description") {
            Some(t) => t,
            None => {
                return None;
            },
        };
        let homepage = match read_optional_text(v, "homepage") {
            Some(t) => t,
            None => {
                return None;
            },
        };
        let author = match v.get_present("author") {
            None => None,
            Some(JsonValue::Text(s)) => Some(AuthorType::String(s.clone())),
            Some(x) => match (
                x.get("name"),
                read_optional_text(x, "email"),
                read_optional_text(x, "url"),
            ) {
                (Some(JsonValue::Text(n)), Some(email), Some(url)) => Some(
                    AuthorType::Obj(AuthorObject { name: n.clone(), email, url }),
                ),
                _ => {
                    return None;
                },
            },
        };
        let bugs = match v.get_present("bugs") {
            None => None,
            Some(JsonValue::Text(s)) => Some(BugsType::String(s.clone())),
            Some(x) => match (
                x.get("url"),
                read_optional_text(x, "email"),
                read_optional_text(x, "url"),
            ) {
                (Some(JsonValue::Text(u)), Some(email), Some(_)) => Some(
                    BugsType::Obj(BugsObject { url: u.clone(), email }),
                ),
                _ => {
                    return None;
                },
            },
        };
        let repository = match v.get_present("repository") {
            None => None,
            Some(JsonValue::Text(s)) => Some(RepoType::String(s.clone())),
            Some(x) => match (
                x.get("url"),
                read_optional_text(x, "email"),
                read_optional_text(x, "url"),
                read_optional_text(x, "type"),
                read_optional_text(x, "directory"),
            ) {
                (Some(JsonValue::Text(u)), Some(_), Some(_), Some(kind), Some(directory)) => Some(
                    RepoType::Obj(RepoObject { url: u.clone(), kind, directory }),
                ),
                (Some(JsonValue::Text(u)), Some(_), Some(_), _, _) => Some(
                    RepoType::Obj(RepoObject { url: u.clone(), kind: None, directory: None }),
                ),
                _ => {
                    return None;
                },
            },
        };
        Some(
            PartialPackageJsonData {
                name,
                version,
                description,
                author,
                homepage,
                bugs,
                repository,
            },
        )
    }

    /// A text, or `Unknown` where there is none.
    pub fn shown(t: Option<String>) -> (r: String)
        ensures
            r@ == or_unknown(opt_text(t)),
    {
        match t {
            Some(s) => s,
            None => "Unknown".to_owned(),
        }
    }
}

/// What is shown of a package.
#[derive(Debug)]
pub struct PackageInfoModel {
    pub hidden: bool,
    pub pkg_name: String,
    pub description: String,
    pub version: String,
    pub author: String,
    pub repo: String,
    pub homepage: String,
    pub bugs: String,
}

impl PackageInfoModel {
    /// The text of the model as one record.
    pub open spec fn summary(self) -> PackageSummary {
        PackageSummary {
            name: self.pkg_name@,
            version: self.version@,
            description: self.description@,
            author: self.author@,
            bugs: self.bugs@,
            repository: self.repo@,
            homepage: self.homepage@,
        }
    }

    /// A model that shows nothing.
    pub fn new() -> (r: Self)
        ensures
            r.hidden,
    {
        PackageInfoModel {
            hidden: true,
            pkg_name: String::new(),
            version: String::new(),
            author: String::new(),
            repo: String::new(),
            bugs: String::new(),
            description: String::new(),
            homepage: String::new(),
        }
    }

    /// Shows a package.
    pub fn populate_view(&mut self, package_json: PartialPackageJsonData)
        ensures
            final(self).summary() == package_json.summary(),
            final(self).hidden == old(self).hidden,
    {
        self.author = match &package_json.author {
            Some(AuthorType::String(s)) => s.clone(),
            Some(AuthorType::Obj(o)) => o.name.clone(),
            None => "Unknown".to_owned(),
        };
        self.bugs = match &package_json.bugs {
            Some(BugsType::String(s)) => s.clone(),
            Some(BugsType::Obj(o)) => o.url.clone(),
            None => "Unknown".to_owned(),
        };
        self.repo = match &package_json.repository {
            Some(RepoType::String(s)) => s.clone(),
            Some(RepoType::Obj(o)) => o.url.clone(),
            None => "Unknown".to_owned(),
        };
        self.pkg_name = package_json.name;
        self.version = package_json.version;
        self.description = PartialPackageJsonData::shown(package_json.description);
        self.homepage = PartialPackageJsonData::shown(package_json.homepage);
    }

    /// Takes a message. `Show` brings the path of the package description;
    /// `content` is what the file holds. A description that can be read is
    /// shown and handed back; otherwise nothing changes.
    pub fn update(&mut self, message: PackageInfoInput, content: &str) -> (r: Option<
        PackageInfoOutput,
    >)
        ensures
            match r {
                Some(PackageInfoOutput::PackageData(p)) => {
                    &&& !final(self).hidden
                    &&& final(self).summary() == p.summary()
                    &&& json_document(content@) is Some
                    &&& PartialPackageJsonData::describes(json_document(content@)->0)
                },
                None => {
                    &&& *final(self) == *old(self)
                    &&& match json_document(content@) {
                        Some(doc) => !PartialPackageJsonData::describes(doc),
                        None => true,
                    }
                },
            },
    {
        match message {
            PackageInfoInput::Show(_path) => {
                let doc = match parse_json(content) {
                    Some(d) => d,
                    None => {
                        return None;
                    },
                };
                match (
                    PartialPackageJsonData::from_json(&doc),
                    PartialPackageJsonData::from_json(&doc),
                ) {
                    (Some(package), Some(copy)) => {
                        self.populate_view(copy);
                        self.hidden = false;
                        assert(package.summary() == copy.summary());
                        Some(PackageInfoOutput::PackageData(package))
                    },
                    _ => None,
                }
            },
        }
    }
}

} // verus!
