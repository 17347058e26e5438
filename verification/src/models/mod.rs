use vstd::hash_map::StringHashMap;
use vstd::prelude::*;

verus! {

/// A JSON value that the library carries and never reads.
#[verifier::external_type_specification]
#[verifier::external_body]
pub struct ExJsonValue(serde_json::Value);

/// One platform's offering in the metadata document.
#[derive(Debug)]
pub struct DownloadOption {
    pub size: u64,
    pub version: String,
    pub deprecated: bool,
    pub download_link: String,
    pub installer_md5: String,
}

/// The mathematical content of a [`DownloadOption`].
pub struct DownloadOptionView {
    pub size: u64,
    pub version: Seq<char>,
    pub deprecated: bool,
    pub download_link: Seq<char>,
    pub installer_md5: Seq<char>,
}

impl View for DownloadOption {
    type V = DownloadOptionView;

    open spec fn view(&self) -> DownloadOptionView {
        DownloadOptionView {
            size: self.size,
            version: self.version@,
            deprecated: self.deprecated,
            download_link: self.download_link@,
            installer_md5: self.installer_md5@,
        }
    }
}

/// The metadata document: a version, the offerings by platform key, and a part that is
/// only carried along.
pub struct DownloadLinks {
    pub version: String,
    pub content: StringHashMap<DownloadOption>,
    pub bases: serde_json::Value,
}

/// The mathematical content of a [`DownloadLinks`]: the version and the offerings; the
/// part that is only carried along has no place in it.
pub struct DownloadLinksView {
    pub version: Seq<char>,
    pub content: Map<Seq<char>, DownloadOptionView>,
}

impl View for DownloadLinks {
    type V = DownloadLinksView;

    open spec fn view(&self) -> DownloadLinksView {
        DownloadLinksView {
            version: self.version@,
            content: self.content@.map_values(|option: DownloadOption| option@),
        }
    }
}

impl Clone for DownloadOption {
    fn clone(&self) -> (copy: Self)
        ensures
            copy@ == self@,
    {
        DownloadOption {
            size: self.size,
            version: self.version.clone(),
            deprecated: self.deprecated,
            download_link: self.download_link.clone(),
            installer_md5: self.installer_md5.clone(),
        }
    }
}

impl DownloadOption {
    /// An offering with the given fields.
    pub fn new(
        size: u64,
        version: String,
        deprecated: bool,
        download_link: String,
        installer_md5: String,
    ) -> (option: Self)
        ensures
            option@ == (DownloadOptionView {
                size,
                version: version@,
                deprecated,
                download_link: download_link@,
                installer_md5: installer_md5@,
            }),
    {
        DownloadOption { size, version, deprecated, download_link, installer_md5 }
    }
}

impl DownloadLinks {
    /// A document without offerings.
    pub fn new(version: String, bases: serde_json::Value) -> (links: Self)
        ensures
            links@.version == version@,
            links@.content == Map::<Seq<char>, DownloadOptionView>::empty(),
            links.bases == bases,
    {
        let links = DownloadLinks { version, content: StringHashMap::new(), bases };
        assert(links@.content =~= Map::<Seq<char>, DownloadOptionView>::empty());
        links
    }

    /// Records `option` as the offering for `platform`; an earlier offering for that
    /// platform is replaced.
    pub fn insert(&mut self, platform: String, option: DownloadOption)
        ensures
            final(self)@.version == old(self)@.version,
            final(self)@.content == old(self)@.content.insert(platform@, option@),
            final(self).bases == old(self).bases,
    {
        self.content.insert(platform, option);
        assert(self@.content =~= old(self)@.content.insert(platform@, option@));
    }

    /// The offering for `platform`, if the document has one.
    pub fn get(&self, platform: &str) -> (found: Option<&DownloadOption>)
        ensures
            match found {
                Some(option) => self@.content.contains_key(platform@) && option@
                    == self@.content[platform@],
                None => !self@.content.contains_key(platform@),
            },
    {
        self.content.get(platform)
    }

    /// How many platforms the document has an offering for.
    pub fn len(&self) -> (count: usize)
        ensures
            count == self@.content.len(),
    {
        broadcast use vstd::hash_map::group_hash_map_axioms;

        let count = self.content.len();
        proof {
            lemma_offerings_count(self.content@);
        }
        count
    }
}

/// Viewing each offering changes neither which platforms a document has nor how many.
proof fn lemma_offerings_count(content: Map<Seq<char>, DownloadOption>)
    ensures
        content.map_values(|option: DownloadOption| option@).dom() == content.dom(),
        content.map_values(|option: DownloadOption| option@).len() == content.len(),
{
    assert(content.map_values(|option: DownloadOption| option@).dom() =~= content.dom());
}

} // verus!
