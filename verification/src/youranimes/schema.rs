//! The records of the YourAnimes API as the source sends them, read from
//! JSON: a member marked required must be present; the others default.
//! Unknown members are ignored.
use vstd::prelude::*;
use crate::json::{JsonShape, JsonShapeView, json_shape, json_shape_of, member_of, find_member};
use crate::json_decode::{FromJson, object_of, object_members, required, or_default, required_field, default_field};

verus! {

/// A cast member.
#[derive(Debug, PartialEq, Eq)]
pub struct Cast {
    pub name: String,
    pub role: String,
    pub character: Option<String>,
    pub voice: Option<String>,
}

impl DeepView for Cast {
    type V = (Seq<char>, Seq<char>, Option<Seq<char>>, Option<Seq<char>>);

    open spec fn deep_view(&self) -> Self::V {
        (self.name@, self.role@, self.character.deep_view(), self.voice.deep_view())
    }
}

impl FromJson for Cast {
    /// `name` and `role` required; `character` and `voice` optional.
    open spec fn json_model(text: Seq<char>) -> Option<Self::V> {
        match object_of(text) {
            Some(m) => match (
                required_field::<String>(m, "name"@),
                required_field::<String>(m, "role"@),
                default_field::<Option<String>>(m, "character"@, None),
                default_field::<Option<String>>(m, "voice"@, None),
            ) {
                (Some(a), Some(b), Some(c), Some(d)) => Some((a, b, c, d)),
                _ => None,
            },
            None => None,
        }
    }

    fn from_json(text: &str) -> (r: Option<Cast>) {
        let m = object_members(text)?;
        let name = required::<String>(&m, "name")?;
        let role = required::<String>(&m, "role")?;
        let character = or_default::<Option<String>>(&m, "character", None)?;
        let voice = or_default::<Option<String>>(&m, "voice", None)?;
        Some(Cast { name, role, character, voice })
    }
}

/// The rating of a show. The average, a floating-point number, is checked
/// to be a number and not kept.
#[derive(Debug, PartialEq, Eq)]
pub struct Favorability {
    pub counts: i64,
}

impl DeepView for Favorability {
    type V = i64;

    open spec fn deep_view(&self) -> i64 {
        self.counts
    }
}

/// A member that holds a JSON number.
pub open spec fn number_field(m: Seq<(Seq<char>, Seq<char>)>, key: Seq<char>) -> bool {
    match member_of(m, key) {
        Some(t) => json_shape_of(t) matches Some(JsonShapeView::Number { .. }),
        None => false,
    }
}

impl FromJson for Favorability {
    /// `average` a number and `counts` an integer, both required.
    open spec fn json_model(text: Seq<char>) -> Option<i64> {
        match object_of(text) {
            Some(m) => if number_field(m, "average"@) {
                required_field::<i64>(m, "counts"@)
            } else {
                None
            },
            None => None,
        }
    }

    fn from_json(text: &str) -> (r: Option<Favorability>) {
        let m = object_members(text)?;
        let average = find_member(&m, "average")?;
        match json_shape(average.as_str()) {
            Some(JsonShape::Number { .. }) => {},
            _ => return None,
        }
        let counts = required::<i64>(&m, "counts")?;
        Some(Favorability { counts })
    }
}

/// A link to an official page.
#[derive(Debug, PartialEq, Eq)]
pub struct SocialLink {
    pub title: String,
    pub url: String,
}

impl DeepView for SocialLink {
    type V = (Seq<char>, Seq<char>);

    open spec fn deep_view(&self) -> Self::V {
        (self.title@, self.url@)
    }
}

impl FromJson for SocialLink {
    open spec fn json_model(text: Seq<char>) -> Option<Self::V> {
        match object_of(text) {
            Some(m) => match (required_field::<String>(m, "title"@), required_field::<String>(m, "url"@)) {
                (Some(a), Some(b)) => Some((a, b)),
                _ => None,
            },
            None => None,
        }
    }

    fn from_json(text: &str) -> (r: Option<SocialLink>) {
        let m = object_members(text)?;
        let title = required::<String>(&m, "title")?;
        let url = required::<String>(&m, "url")?;
        Some(SocialLink { title, url })
    }
}

/// A credit of a song.
#[derive(Debug, PartialEq, Eq)]
pub struct Credit {
    pub name: String,
}

impl DeepView for Credit {
    type V = Seq<char>;

    open spec fn deep_view(&self) -> Seq<char> {
        self.name@
    }
}

impl FromJson for Credit {
    open spec fn json_model(text: Seq<char>) -> Option<Seq<char>> {
        match object_of(text) {
            Some(m) => required_field::<String>(m, "name"@),
            None => None,
        }
    }

    fn from_json(text: &str) -> (r: Option<Credit>) {
        let m = object_members(text)?;
        let name = required::<String>(&m, "name")?;
        Some(Credit { name })
    }
}

/// A credited person of the staff.
#[derive(Debug, PartialEq, Eq)]
pub struct CreditOwner {
    pub name: String,
}

impl DeepView for CreditOwner {
    type V = Seq<char>;

    open spec fn deep_view(&self) -> Seq<char> {
        self.name@
    }
}

impl FromJson for CreditOwner {
    open spec fn json_model(text: Seq<char>) -> Option<Seq<char>> {
        match object_of(text) {
            Some(m) => required_field::<String>(m, "name"@),
            None => None,
        }
    }

    fn from_json(text: &str) -> (r: Option<CreditOwner>) {
        let m = object_members(text)?;
        let name = required::<String>(&m, "name")?;
        Some(CreditOwner { name })
    }
}

/// A studio.
#[derive(Debug, PartialEq, Eq)]
pub struct Studio {
    pub name: String,
}

impl DeepView for Studio {
    type V = Seq<char>;

    open spec fn deep_view(&self) -> Seq<char> {
        self.name@
    }
}

impl FromJson for Studio {
    open spec fn json_model(text: Seq<char>) -> Option<Seq<char>> {
        match object_of(text) {
            Some(m) => required_field::<String>(m, "name"@),
            None => None,
        }
    }

    fn from_json(text: &str) -> (r: Option<Studio>) {
        let m = object_members(text)?;
        let name = required::<String>(&m, "name")?;
        Some(Studio { name })
    }
}

/// A theme song.
#[derive(Debug, PartialEq, Eq)]
pub struct Song {
    pub credits: Vec<Credit>,
    pub title: String,
    pub kind: String,
}

impl DeepView for Song {
    type V = (Seq<Seq<char>>, Seq<char>, Seq<char>);

    open spec fn deep_view(&self) -> Self::V {
        (self.credits.deep_view(), self.title@, self.kind@)
    }
}

impl FromJson for Song {
    /// `credits`, `title` and `type` required.
    open spec fn json_model(text: Seq<char>) -> Option<Self::V> {
        match object_of(text) {
            Some(m) => match (
                required_field::<Vec<Credit>>(m, "credits"@),
                required_field::<String>(m, "title"@),
                required_field::<String>(m, "type"@),
            ) {
                (Some(a), Some(b), Some(c)) => Some((a, b, c)),
                _ => None,
            },
            None => None,
        }
    }

    fn from_json(text: &str) -> (r: Option<Song>) {
        let m = object_members(text)?;
        let credits = required::<Vec<Credit>>(&m, "credits")?;
        let title = required::<String>(&m, "title")?;
        let kind = required::<String>(&m, "type")?;
        Some(Song { credits, title, kind })
    }
}

/// A member of the staff.
#[derive(Debug, PartialEq, Eq)]
pub struct Staff {
    pub credits: Vec<CreditOwner>,
    pub role: String,
    pub job_title: Option<String>,
    pub name: Option<String>,
}

impl DeepView for Staff {
    type V = (Seq<Seq<char>>, Seq<char>, Option<Seq<char>>, Option<Seq<char>>);

    open spec fn deep_view(&self) -> Self::V {
        (self.credits.deep_view(), self.role@, self.job_title.deep_view(), self.name.deep_view())
    }
}

impl FromJson for Staff {
    /// `credits` and `role` required; `jobTitle` and `name` optional.
    open spec fn json_model(text: Seq<char>) -> Option<Self::V> {
        match object_of(text) {
            Some(m) => match (
                required_field::<Vec<CreditOwner>>(m, "credits"@),
                required_field::<String>(m, "role"@),
                default_field::<Option<String>>(m, "jobTitle"@, None),
                default_field::<Option<String>>(m, "name"@, None),
            ) {
                (Some(a), Some(b), Some(c), Some(d)) => Some((a, b, c, d)),
                _ => None,
            },
            None => None,
        }
    }

    fn from_json(text: &str) -> (r: Option<Staff>) {
        let m = object_members(text)?;
        let credits = required::<Vec<CreditOwner>>(&m, "credits")?;
        let role = required::<String>(&m, "role")?;
        let job_title = or_default::<Option<String>>(&m, "jobTitle", None)?;
        let name = or_default::<Option<String>>(&m, "name", None)?;
        Some(Staff { credits, role, job_title, name })
    }
}

/// A streaming offer. Where the source gives no local vendor name, the
/// vendor's own name stands for it.
#[derive(Debug, PartialEq, Eq)]
pub struct Streaming {
    pub payment: Option<String>,
    pub title: String,
    pub url: String,
    pub vendor: String,
    pub vendor_local_name: String,
    pub has_zh_cn_subtitle: Option<bool>,
    pub has_zh_hk_subtitle: Option<bool>,
    pub ad_url: Option<String>,
}

impl DeepView for Streaming {
    type V = (
        Option<Seq<char>>,
        Seq<char>,
        Seq<char>,
        Seq<char>,
        Seq<char>,
        Option<bool>,
        Option<bool>,
        Option<Seq<char>>,
    );

    open spec fn deep_view(&self) -> Self::V {
        (
            self.payment.deep_view(),
            self.title@,
            self.url@,
            self.vendor@,
            self.vendor_local_name@,
            self.has_zh_cn_subtitle,
            self.has_zh_hk_subtitle,
            self.ad_url.deep_view(),
        )
    }
}

impl FromJson for Streaming {
    /// `title`, `url` and `vendor` required; the others optional.
    open spec fn json_model(text: Seq<char>) -> Option<Self::V> {
        match object_of(text) {
            Some(m) => match (
                default_field::<Option<String>>(m, "payment"@, None),
                required_field::<String>(m, "title"@),
                required_field::<String>(m, "url"@),
                required_field::<String>(m, "vendor"@),
                default_field::<Option<String>>(m, "vendorLocalName"@, None),
                default_field::<Option<bool>>(m, "hasZhCnSubtitle"@, None),
                default_field::<Option<bool>>(m, "hasZhHkSubtitle"@, None),
                default_field::<Option<String>>(m, "adUrl"@, None),
            ) {
                (Some(p), Some(t), Some(u), Some(v), Some(l), Some(cn), Some(hk), Some(ad)) => Some(
                    (
                        p,
                        t,
                        u,
                        v,
                        match l {
                            Some(name) => name,
                            None => v,
                        },
                        cn,
                        hk,
                        ad,
                    ),
                ),
                _ => None,
            },
            None => None,
        }
    }

    fn from_json(text: &str) -> (r: Option<Streaming>) {
        let m = object_members(text)?;
        let payment = or_default::<Option<String>>(&m, "payment", None)?;
        let title = required::<String>(&m, "title")?;
        let url = required::<String>(&m, "url")?;
        let vendor = required::<String>(&m, "vendor")?;
        let local = or_default::<Option<String>>(&m, "vendorLocalName", None)?;
        let has_zh_cn_subtitle = or_default::<Option<bool>>(&m, "hasZhCnSubtitle", None)?;
        let has_zh_hk_subtitle = or_default::<Option<bool>>(&m, "hasZhHkSubtitle", None)?;
        let ad_url = or_default::<Option<String>>(&m, "adUrl", None)?;
        let vendor_local_name = match local {
            Some(name) => name,
            None => vendor.clone(),
        };
        Some(Streaming {
            payment,
            title,
            url,
            vendor,
            vendor_local_name,
            has_zh_cn_subtitle,
            has_zh_hk_subtitle,
            ad_url,
        })
    }
}

} // verus!
