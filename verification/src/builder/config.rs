//! The project configuration (`inert.json`) and the packages it depends on.

use vstd::prelude::*;
use vstd::string::StringExecFns;

use crate::text::{
    after_first, before_first, chars_of, find_first, first_pos, lemma_first_pos, push_range,
    push_str,
};

verus! {

/// Host that packages are downloaded from when none is configured.
pub const DEFAULT_HOST: &'static str = "https://github.com/tailwindlabs/tailwindcss/releases/download";

/// The project configuration.
#[derive(Debug)]
pub struct Config {
    pub name: String,
    pub description: String,
    pub keywords: Vec<String>,
    pub dependencies: Vec<Dependency>,
}

/// A package the project depends on.
#[derive(Debug)]
pub struct Dependency {
    pub name: String,
    pub version: String,
    pub alias: Vec<String>,
}

impl Config {
    /// Every field is empty.
    pub open spec fn is_blank(&self) -> bool {
        &&& self.name@ == Seq::<char>::empty()
        &&& self.description@ == Seq::<char>::empty()
        &&& self.keywords@ == Seq::<String>::empty()
        &&& self.dependencies@ == Seq::<Dependency>::empty()
    }
}

impl Dependency {
    /// Name and version are empty and there is no alias.
    pub open spec fn is_blank(&self) -> bool {
        &&& self.name@ == Seq::<char>::empty()
        &&& self.version@ == Seq::<char>::empty()
        &&& self.alias@ == Seq::<String>::empty()
    }
}

impl Default for Config {
    fn default() -> (c: Self)
        ensures
            c.is_blank(),
    {
        Config {
            name: String::new(),
            description: String::new(),
            keywords: Vec::new(),
            dependencies: Vec::new(),
        }
    }
}

impl Default for Dependency {
    fn default() -> (d: Self)
        ensures
            d.is_blank(),
    {
        Dependency { name: String::new(), version: String::new(), alias: Vec::new() }
    }
}

/// The message of a package spec that holds no `@`.
pub open spec fn spec_malformed_package_message() -> Seq<char> {
    "package paths are typically <pkg_name>@<pkg_version>"@
}

/// The message of a package whose download could not be stored.
pub open spec fn spec_write_failed_message() -> Seq<char> {
    "unable to write {self.name}"@
}

impl Config {
    /// An empty configuration.
    pub fn new() -> (c: Self)
        ensures
            c.is_blank(),
    {
        Config::default()
    }

    /// The configuration to use once a configuration file has been read and
    /// parsed: the parsed one, or an empty one when parsing failed.
    pub fn from_parsed(parsed: Option<Config>) -> (c: Self)
        ensures
            parsed matches Some(p) ==> c == p,
            parsed is None ==> c.is_blank(),
    {
        match parsed {
            Some(p) => p,
            None => Config::new(),
        }
    }

    /// Records a fetched package as the project's only dependency (earlier
    /// entries are dropped, so that none occurs twice). A failed fetch
    /// leaves the configuration as it was and hands its error on.
    pub fn add_dependency(&mut self, fetched: Result<Dependency, String>) -> (r: Result<(), String>)
        ensures
            match fetched {
                Ok(dep) => {
                    &&& r is Ok
                    &&& final(self).dependencies@ == seq![dep]
                    &&& final(self).name == old(self).name
                    &&& final(self).description == old(self).description
                    &&& final(self).keywords == old(self).keywords
                },
                Err(e) => {
                    &&& r == Err::<(), String>(e)
                    &&& *final(self) == *old(self)
                },
            },
    {
        match fetched {
            Ok(dep) => {
                self.dependencies.clear();
                self.dependencies.push(dep);
                Ok(())
            },
            Err(e) => Err(e),
        }
    }
}

impl Dependency {
    /// Reads a package spec of the form `<name>@<version>`: the name is the
    /// text before the first `@`, the version the text after it up to the
    /// next `@` (or the end). A spec without `@` is refused.
    pub fn from_str(pkg: &str) -> (r: Result<Dependency, String>)
        ensures
            r is Ok <==> pkg@.contains('@'),
            r matches Ok(d) ==> {
                &&& d.name@ == before_first(pkg@, '@')
                &&& d.version@ == before_first(after_first(pkg@, '@'), '@')
                &&& d.alias@ == Seq::<String>::empty()
            },
            r matches Err(e) ==> e@ == spec_malformed_package_message(),
    {
        let cs = chars_of(pkg);
        let at = find_first(&cs, '@');
        proof {
            lemma_first_pos(pkg@, '@');
        }
        if at == cs.len() {
            return Err(String::from_str("package paths are typically <pkg_name>@<pkg_version>"));
        }
        let mut name = String::new();
        push_range(&mut name, &cs, 0, at);
        let start = at + 1;
        let mut rest: Vec<char> = Vec::new();
        let mut i = start;
        while i < cs.len()
            invariant
                start <= i <= cs.len(),
                rest@ == cs@.subrange(start as int, i as int),
            decreases cs.len() - i,
        {
            rest.push(cs[i]);
            i = i + 1;
        }
        let end = find_first(&rest, '@');
        proof {
            lemma_first_pos(rest@, '@');
        }
        let mut version = String::new();
        push_range(&mut version, &rest, 0, end);
        assert(name@ == cs@.take(at as int));
        assert(version@ == rest@.take(end as int));
        Ok(Dependency { name, version, alias: Vec::new() })
    }

    /// The host to download packages from: the configured one, or
    /// `DEFAULT_HOST` when none is configured.
    pub fn host_or_default(configured: Option<String>) -> (host: String)
        ensures
            configured matches Some(h) ==> host == h,
            configured is None ==> host@ == DEFAULT_HOST@,
    {
        match configured {
            Some(h) => h,
            None => String::from_str(DEFAULT_HOST),
        }
    }

    /// The address the package is downloaded from: `<host>/<name>/<version>`.
    pub fn download_url(&self, host: &str) -> (url: String)
        ensures
            url@ == host@ + "/"@ + self.name@ + "/"@ + self.version@,
    {
        let mut url = String::new();
        push_str(&mut url, host);
        push_str(&mut url, "/");
        push_str(&mut url, self.name.as_str());
        push_str(&mut url, "/");
        push_str(&mut url, self.version.as_str());
        url
    }

    /// The file the package is stored in: `_build/<name>@<version>`.
    pub fn build_target(&self) -> (target: String)
        ensures
            target@ == "_build/"@ + self.name@ + "@"@ + self.version@,
    {
        let mut target = String::new();
        push_str(&mut target, "_build/");
        push_str(&mut target, self.name.as_str());
        push_str(&mut target, "@");
        push_str(&mut target, self.version.as_str());
        target
    }

    /// The result of a fetch once the download has been stored, or has
    /// failed to be: the package itself, or the write error.
    pub fn finish_fetch(self, written: bool) -> (r: Result<Dependency, String>)
        ensures
            written ==> r == Ok::<Dependency, String>(self),
            !written ==> (r matches Err(e) && e@ == spec_write_failed_message()),
    {
        if written {
            Ok(self)
        } else {
            Err(String::from_str("unable to write {self.name}"))
        }
    }
}

/// A package spec written as `<name>@<version>`, from a name and a version
/// that hold no `@`, reads back as that name and that version.
pub proof fn law_package_spec_roundtrip(name: Seq<char>, version: Seq<char>)
    requires
        !name.contains('@'),
        !version.contains('@'),
    ensures
        (name + seq!['@'] + version).contains('@'),
        before_first(name + seq!['@'] + version, '@') == name,
        before_first(after_first(name + seq!['@'] + version, '@'), '@') == version,
{
    let s = name + seq!['@'] + version;
    assert(s[name.len() as int] == '@');
    lemma_first_pos(s, '@');
    let p = first_pos(s, '@');
    if p < name.len() {
        assert(s[p] == name[p]);
    }
    if p > name.len() {
        assert(s[name.len() as int] != '@');
    }
    assert(s.take(p) =~= name);
    assert(after_first(s, '@') =~= version);
    lemma_first_pos(version, '@');
    assert(first_pos(version, '@') == version.len());
    assert(version.take(version.len() as int) =~= version);
}

} // verus!
