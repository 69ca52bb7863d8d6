//! The image-generation endpoint: its request, the closed sets of values the
//! request fields take, and the response.
use vstd::prelude::*;
use vstd::string::*;

use crate::json::{lemma_escape_plain, member_text, members_text, decimal, decimal_of, json_string, json_string_of, members_view, object_of, object_text};
use crate::{HttpMethod, HttpRequest, HttpRequestView, IntoRequest};

verus! {

/// Where image-generation requests are sent.
pub const IMAGE_GENERATIONS_URL: &'static str = "https://api.openai.com/v1/images/generations";

/// The model that draws the images.
#[derive(Debug, Clone, Copy, Default, PartialEq, Eq)]
pub enum ImageModel {
    #[default]
    DallE3,
}

impl ImageModel {
    /// The wire name of the model.
    pub open spec fn spec_name(self) -> Seq<char> {
        match self {
            ImageModel::DallE3 => "dall-e-3"@,
        }
    }

    pub fn as_str(&self) -> (r: &'static str)
        ensures
            r@ == self.spec_name(),
    {
        match self {
            ImageModel::DallE3 => "dall-e-3",
        }
    }
}

/// The quality of the generated images.
#[derive(Debug, Clone, Copy, Default, PartialEq, Eq)]
pub enum ImageQuality {
    #[default]
    Standard,
    Hd,
}

impl ImageQuality {
    /// The wire name of the quality.
    pub open spec fn spec_name(self) -> Seq<char> {
        match self {
            ImageQuality::Standard => "standard"@,
            ImageQuality::Hd => "hd"@,
        }
    }

    pub fn as_str(&self) -> (r: &'static str)
        ensures
            r@ == self.spec_name(),
    {
        match self {
            ImageQuality::Standard => "standard",
            ImageQuality::Hd => "hd",
        }
    }
}

/// How the generated images are handed back.
#[derive(Debug, Clone, Copy, Default, PartialEq, Eq)]
pub enum ImageResponseFormat {
    #[default]
    Url,
    B64Json,
}

impl ImageResponseFormat {
    /// The wire name of the format.
    pub open spec fn spec_name(self) -> Seq<char> {
        match self {
            ImageResponseFormat::Url => "url"@,
            ImageResponseFormat::B64Json => "b64_json"@,
        }
    }

    pub fn as_str(&self) -> (r: &'static str)
        ensures
            r@ == self.spec_name(),
    {
        match self {
            ImageResponseFormat::Url => "url",
            ImageResponseFormat::B64Json => "b64_json",
        }
    }
}

/// The dimensions of the generated images.
#[derive(Debug, Clone, Copy, Default, PartialEq, Eq)]
pub enum ImageSize {
    #[default]
    Large,
    LargeWide,
    LargeTall,
}

impl ImageSize {
    /// The wire name of the size: width by height in pixels.
    pub open spec fn spec_name(self) -> Seq<char> {
        match self {
            ImageSize::Large => "1024x1024"@,
            ImageSize::LargeWide => "1792x1024"@,
            ImageSize::LargeTall => "1024x1792"@,
        }
    }

    pub fn as_str(&self) -> (r: &'static str)
        ensures
            r@ == self.spec_name(),
    {
        match self {
            ImageSize::Large => "1024x1024",
            ImageSize::LargeWide => "1792x1024",
            ImageSize::LargeTall => "1024x1792",
        }
    }
}

/// The look of the generated images.
#[derive(Debug, Clone, Copy, Default, PartialEq, Eq)]
pub enum ImageStyle {
    #[default]
    Vivid,
    Natural,
}

impl ImageStyle {
    /// The wire name of the style.
    pub open spec fn spec_name(self) -> Seq<char> {
        match self {
            ImageStyle::Vivid => "vivid"@,
            ImageStyle::Natural => "natural"@,
        }
    }

    pub fn as_str(&self) -> (r: &'static str)
        ensures
            r@ == self.spec_name(),
    {
        match self {
            ImageStyle::Vivid => "vivid",
            ImageStyle::Natural => "natural",
        }
    }
}

/// A member that is present only when its value is set.
pub open spec fn optional_member(key: Seq<char>, value: Option<Seq<char>>) -> Seq<(Seq<char>, Seq<char>)> {
    match value {
        Some(v) => seq![(key, v)],
        None => Seq::empty(),
    }
}

/// The parameters of one image-generation call.
#[derive(Debug, Clone)]
pub struct CreateImageRequest {
    /// A text description of the desired images.
    pub prompt: String,
    /// The model that draws the images.
    pub model: ImageModel,
    /// The number of images to generate.
    pub n: Option<usize>,
    /// The quality of the images.
    pub quality: Option<ImageQuality>,
    /// Whether images come back as URLs or as base64 text.
    pub response_format: Option<ImageResponseFormat>,
    /// The dimensions of the images.
    pub size: Option<ImageSize>,
    /// The look of the images.
    pub style: Option<ImageStyle>,
    /// An identifier of the end user.
    pub user: Option<String>,
}

impl CreateImageRequest {
    /// Only the prompt is given: every optional field is unset.
    pub open spec fn is_prompt_only(&self) -> bool {
        &&& self.model == ImageModel::DallE3
        &&& self.n.is_none()
        &&& self.quality.is_none()
        &&& self.response_format.is_none()
        &&& self.size.is_none()
        &&& self.style.is_none()
        &&& self.user.is_none()
    }

    /// The members of the JSON body, in order, each with its value as JSON
    /// text. An unset optional field has no member.
    pub open spec fn members(&self) -> Seq<(Seq<char>, Seq<char>)> {
        seq![("prompt"@, json_string(self.prompt@)), ("model"@, json_string(self.model.spec_name()))]
            + optional_member("n"@, match self.n {
                Some(n) => Some(decimal(n as nat)),
                None => None,
            })
            + optional_member("quality"@, match self.quality {
                Some(q) => Some(json_string(q.spec_name())),
                None => None,
            })
            + optional_member("response_format"@, match self.response_format {
                Some(f) => Some(json_string(f.spec_name())),
                None => None,
            })
            + optional_member("size"@, match self.size {
                Some(s) => Some(json_string(s.spec_name())),
                None => None,
            })
            + optional_member("style"@, match self.style {
                Some(s) => Some(json_string(s.spec_name())),
                None => None,
            })
            + optional_member("user"@, match self.user {
                Some(u) => Some(json_string(u@)),
                None => None,
            })
    }

    /// The JSON body of the request.
    pub open spec fn spec_body(&self) -> Seq<char> {
        object_text(self.members())
    }

    /// A request with the given prompt and every optional field unset.
    pub fn new(prompt: String) -> (r: Self)
        ensures
            r.prompt@ == prompt@,
            r.is_prompt_only(),
    {
        CreateImageRequest {
            prompt,
            model: ImageModel::DallE3,
            n: None,
            quality: None,
            response_format: None,
            size: None,
            style: None,
            user: None,
        }
    }
}

impl Default for CreateImageRequest {
    fn default() -> (r: Self)
        ensures
            r.prompt@ == Seq::<char>::empty(),
            r.is_prompt_only(),
    {
        CreateImageRequest::new(String::new())
    }
}

/// The text of an optional value.
pub open spec fn optional_view(v: Option<String>) -> Option<Seq<char>> {
    match v {
        Some(s) => Some(s@),
        None => None,
    }
}

/// Appends the member `key` when `value` is set.
fn push_optional(ms: &mut Vec<(&'static str, String)>, key: &'static str, value: Option<String>)
    ensures
        members_view(final(ms)@) == members_view(old(ms)@) + optional_member(key@, optional_view(value)),
{
    match value {
        Some(v) => ms.push((key, v)),
        None => {},
    }
    assert(members_view(final(ms)@) =~= members_view(old(ms)@) + optional_member(key@, optional_view(value)));
}

impl CreateImageRequest {
    /// The members of the JSON body, in order, each value already JSON text.
    fn member_list(&self) -> (r: Vec<(&'static str, String)>)
        ensures
            members_view(r@) == self.members(),
    {
        let mut ms: Vec<(&'static str, String)> = Vec::new();
        ms.push(("prompt", json_string_of(self.prompt.as_str())));
        ms.push(("model", json_string_of(self.model.as_str())));
        let ghost m0 = members_view(ms@);
        assert(m0 =~= seq![("prompt"@, json_string(self.prompt@)), ("model"@, json_string(self.model.spec_name()))]);
        let n = match self.n {
            Some(n) => Some(decimal_of(n)),
            None => None,
        };
        push_optional(&mut ms, "n", n);
        let quality = match &self.quality {
            Some(q) => Some(json_string_of(q.as_str())),
            None => None,
        };
        push_optional(&mut ms, "quality", quality);
        let response_format = match &self.response_format {
            Some(f) => Some(json_string_of(f.as_str())),
            None => None,
        };
        push_optional(&mut ms, "response_format", response_format);
        let size = match &self.size {
            Some(z) => Some(json_string_of(z.as_str())),
            None => None,
        };
        push_optional(&mut ms, "size", size);
        let style = match &self.style {
            Some(t) => Some(json_string_of(t.as_str())),
            None => None,
        };
        push_optional(&mut ms, "style", style);
        let user = match &self.user {
            Some(u) => Some(json_string_of(u.as_str())),
            None => None,
        };
        push_optional(&mut ms, "user", user);
        ms
    }

    /// The JSON body: the prompt and the model, then each optional field that
    /// is set, in declaration order; an unset field has no key at all.
    pub fn body(&self) -> (r: String)
        ensures
            r@ == self.spec_body(),
    {
        let ms = self.member_list();
        object_of(&ms)
    }
}

impl IntoRequest for CreateImageRequest {
    /// A POST of the JSON body to the image-generation endpoint.
    open spec fn spec_request(self) -> HttpRequestView {
        HttpRequestView {
            method: HttpMethod::Post,
            url: IMAGE_GENERATIONS_URL@,
            body: self.spec_body(),
            authorization: None,
            timeout_secs: None,
        }
    }

    fn into_request(self) -> (r: HttpRequest) {
        HttpRequest {
            method: HttpMethod::Post,
            url: String::from_str(IMAGE_GENERATIONS_URL),
            body: self.body(),
            authorization: None,
            timeout_secs: None,
        }
    }
}

/// One generated image.
#[derive(Debug, Clone)]
pub struct ImageObject {
    /// The image as base64 text, when that format was asked for.
    pub b64_json: Option<String>,
    /// Where the image can be fetched, when that format was asked for.
    pub url: Option<String>,
    /// The prompt the service actually drew from.
    pub revised_prompt: String,
}

/// The reply to an image-generation call.
#[derive(Debug, Clone)]
pub struct CreateImageResponse {
    /// When the images were made, in seconds since the Unix epoch.
    pub created: u64,
    /// One entry per generated image, in order.
    pub data: Vec<ImageObject>,
}

/// Some member of `ms` has the key `key`.
pub open spec fn has_member(ms: Seq<(Seq<char>, Seq<char>)>, key: Seq<char>) -> bool {
    exists|i: int| 0 <= i < ms.len() && #[trigger] ms[i].0 == key
}

proof fn lemma_has_member_concat(a: Seq<(Seq<char>, Seq<char>)>, b: Seq<(Seq<char>, Seq<char>)>, key: Seq<char>)
    ensures
        has_member(a + b, key) <==> (has_member(a, key) || has_member(b, key)),
{
    if has_member(a + b, key) {
        let i = choose|i: int| 0 <= i < (a + b).len() && #[trigger] (a + b)[i].0 == key;
        if i < a.len() {
            assert(a[i] == (a + b)[i]);
        } else {
            assert(b[i - a.len()] == (a + b)[i]);
        }
    }
    if has_member(a, key) {
        let i = choose|i: int| 0 <= i < a.len() && #[trigger] a[i].0 == key;
        assert((a + b)[i] == a[i]);
    }
    if has_member(b, key) {
        let i = choose|i: int| 0 <= i < b.len() && #[trigger] b[i].0 == key;
        assert((a + b)[i + a.len()] == b[i]);
    }
}

proof fn lemma_contains_concat(a: Seq<(Seq<char>, Seq<char>)>, b: Seq<(Seq<char>, Seq<char>)>, m: (Seq<char>, Seq<char>))
    requires
        a.contains(m) || b.contains(m),
    ensures
        (a + b).contains(m),
{
    if a.contains(m) {
        let i = choose|i: int| 0 <= i < a.len() && a[i] == m;
        assert((a + b)[i] == m);
    } else {
        let i = choose|i: int| 0 <= i < b.len() && b[i] == m;
        assert((a + b)[i + a.len()] == m);
    }
}

proof fn lemma_optional_member(key: Seq<char>, value: Option<Seq<char>>, other: Seq<char>)
    ensures
        has_member(optional_member(key, value), other) <==> (value.is_some() && key == other),
        value.is_some() ==> optional_member(key, value).contains((key, value.unwrap())),
{
    let ms = optional_member(key, value);
    match value {
        Some(v) => {
            assert(ms.len() == 1 && ms[0] == (key, v));
            if has_member(ms, other) {
                let i = choose|i: int| 0 <= i < ms.len() && #[trigger] ms[i].0 == other;
                assert(i == 0);
            }
            if key == other {
                assert(ms[0].0 == other);
            }
        },
        None => {
            assert(ms.len() == 0);
        },
    }
}

proof fn lemma_keys_distinct()
    ensures
        "n"@ != "prompt"@, "n"@ != "model"@, "n"@ != "quality"@, "n"@ != "response_format"@,
        "n"@ != "size"@, "n"@ != "style"@, "n"@ != "user"@,
        "quality"@ != "prompt"@, "quality"@ != "model"@, "quality"@ != "response_format"@,
        "quality"@ != "size"@, "quality"@ != "style"@, "quality"@ != "user"@,
        "response_format"@ != "prompt"@, "response_format"@ != "model"@,
        "response_format"@ != "size"@, "response_format"@ != "style"@, "response_format"@ != "user"@,
        "size"@ != "prompt"@, "size"@ != "model"@, "size"@ != "style"@, "size"@ != "user"@,
        "style"@ != "prompt"@, "style"@ != "model"@, "style"@ != "user"@,
        "user"@ != "prompt"@, "user"@ != "model"@,
{
    reveal_strlit("prompt");
    reveal_strlit("model");
    reveal_strlit("n");
    reveal_strlit("quality");
    reveal_strlit("response_format");
    reveal_strlit("size");
    reveal_strlit("style");
    reveal_strlit("user");
    assert("prompt"@.len() == 6 && "model"@.len() == 5 && "n"@.len() == 1 && "quality"@.len() == 7);
    assert("response_format"@.len() == 15 && "size"@.len() == 4 && "style"@.len() == 5 && "user"@.len() == 4);
    assert("size"@[0] != "user"@[0]);
    assert("style"@[0] != "model"@[0]);
}

/// The keys of the members are `prompt`, `model`, and the key of each
/// optional field that is set.
proof fn lemma_member_keys(r: CreateImageRequest, k: Seq<char>)
    ensures
        has_member(r.members(), k) <==> (
            k == "prompt"@
            || k == "model"@
            || (r.n.is_some() && k == "n"@)
            || (r.quality.is_some() && k == "quality"@)
            || (r.response_format.is_some() && k == "response_format"@)
            || (r.size.is_some() && k == "size"@)
            || (r.style.is_some() && k == "style"@)
            || (r.user.is_some() && k == "user"@)),
{
    let head = seq![("prompt"@, json_string(r.prompt@)), ("model"@, json_string(r.model.spec_name()))];
    let vn = match r.n {
        Some(n) => Some(decimal(n as nat)),
        None => None,
    };
    let vq = match r.quality {
        Some(q) => Some(json_string(q.spec_name())),
        None => None,
    };
    let vf = match r.response_format {
        Some(f) => Some(json_string(f.spec_name())),
        None => None,
    };
    let vz = match r.size {
        Some(z) => Some(json_string(z.spec_name())),
        None => None,
    };
    let vt = match r.style {
        Some(t) => Some(json_string(t.spec_name())),
        None => None,
    };
    let vu = match r.user {
        Some(u) => Some(json_string(u@)),
        None => None,
    };
    let s1 = head + optional_member("n"@, vn);
    let s2 = s1 + optional_member("quality"@, vq);
    let s3 = s2 + optional_member("response_format"@, vf);
    let s4 = s3 + optional_member("size"@, vz);
    let s5 = s4 + optional_member("style"@, vt);
    let s6 = s5 + optional_member("user"@, vu);
    assert(r.members() == s6);
    if has_member(head, k) {
        let i = choose|i: int| 0 <= i < head.len() && #[trigger] head[i].0 == k;
        assert(i == 0 || i == 1);
    }
    assert(head[0].0 == "prompt"@);
    assert(head[1].0 == "model"@);
    lemma_has_member_concat(head, optional_member("n"@, vn), k);
    lemma_has_member_concat(s1, optional_member("quality"@, vq), k);
    lemma_has_member_concat(s2, optional_member("response_format"@, vf), k);
    lemma_has_member_concat(s3, optional_member("size"@, vz), k);
    lemma_has_member_concat(s4, optional_member("style"@, vt), k);
    lemma_has_member_concat(s5, optional_member("user"@, vu), k);
    lemma_optional_member("n"@, vn, k);
    lemma_optional_member("quality"@, vq, k);
    lemma_optional_member("response_format"@, vf, k);
    lemma_optional_member("size"@, vz, k);
    lemma_optional_member("style"@, vt, k);
    lemma_optional_member("user"@, vu, k);
}

/// A request built from a prompt alone has exactly two members, `prompt`
/// and `model`, and `model` is `"dall-e-3"`.
pub proof fn lemma_prompt_only_members(r: CreateImageRequest)
    requires
        r.is_prompt_only(),
    ensures
        r.members() == seq![("prompt"@, json_string(r.prompt@)), ("model"@, json_string("dall-e-3"@))],
        r.spec_body() == "{\"prompt\":"@ + json_string(r.prompt@) + ",\"model\":\"dall-e-3\"}"@,
{
    let ms = seq![("prompt"@, json_string(r.prompt@)), ("model"@, json_string("dall-e-3"@))];
    assert(r.members() =~= ms);
    reveal_strlit("prompt");
    reveal_strlit("model");
    reveal_strlit("dall-e-3");
    reveal_strlit("{\"prompt\":");
    reveal_strlit(",\"model\":\"dall-e-3\"}");
    lemma_escape_plain("prompt"@);
    lemma_escape_plain("model"@);
    lemma_escape_plain("dall-e-3"@);
    assert(ms.drop_last() =~= seq![ms[0]]);
    assert(members_text(seq![ms[0]]) == member_text(ms[0]));
    assert(members_text(ms) == member_text(ms[0]) + seq![','] + member_text(ms[1]));
    assert(r.spec_body() =~= "{\"prompt\":"@ + json_string(r.prompt@) + ",\"model\":\"dall-e-3\"}"@);
}

/// Each optional field has a member in the body exactly when it is set, and
/// then the member holds the field's wire text; an unset field has no key at
/// all, so it is never sent as `null`.
pub proof fn lemma_optional_member_iff_set(r: CreateImageRequest)
    ensures
        has_member(r.members(), "prompt"@),
        has_member(r.members(), "model"@),
        has_member(r.members(), "n"@) <==> r.n.is_some(),
        has_member(r.members(), "quality"@) <==> r.quality.is_some(),
        has_member(r.members(), "response_format"@) <==> r.response_format.is_some(),
        has_member(r.members(), "size"@) <==> r.size.is_some(),
        has_member(r.members(), "style"@) <==> r.style.is_some(),
        has_member(r.members(), "user"@) <==> r.user.is_some(),
        r.n matches Some(n) ==> r.members().contains(("n"@, decimal(n as nat))),
        r.quality matches Some(q) ==> r.members().contains(("quality"@, json_string(q.spec_name()))),
        r.response_format matches Some(f) ==> r.members().contains(("response_format"@, json_string(f.spec_name()))),
        r.size matches Some(z) ==> r.members().contains(("size"@, json_string(z.spec_name()))),
        r.style matches Some(t) ==> r.members().contains(("style"@, json_string(t.spec_name()))),
        r.user matches Some(u) ==> r.members().contains(("user"@, json_string(u@))),
{
    lemma_keys_distinct();
    let head = seq![("prompt"@, json_string(r.prompt@)), ("model"@, json_string(r.model.spec_name()))];
    let vn = match r.n {
        Some(n) => Some(decimal(n as nat)),
        None => None,
    };
    let vq = match r.quality {
        Some(q) => Some(json_string(q.spec_name())),
        None => None,
    };
    let vf = match r.response_format {
        Some(f) => Some(json_string(f.spec_name())),
        None => None,
    };
    let vz = match r.size {
        Some(z) => Some(json_string(z.spec_name())),
        None => None,
    };
    let vt = match r.style {
        Some(t) => Some(json_string(t.spec_name())),
        None => None,
    };
    let vu = match r.user {
        Some(u) => Some(json_string(u@)),
        None => None,
    };
    let s1 = head + optional_member("n"@, vn);
    let s2 = s1 + optional_member("quality"@, vq);
    let s3 = s2 + optional_member("response_format"@, vf);
    let s4 = s3 + optional_member("size"@, vz);
    let s5 = s4 + optional_member("style"@, vt);
    let s6 = s5 + optional_member("user"@, vu);
    assert(r.members() == s6);
    lemma_member_keys(r, "prompt"@);
    lemma_member_keys(r, "model"@);
    lemma_member_keys(r, "n"@);
    lemma_member_keys(r, "quality"@);
    lemma_member_keys(r, "response_format"@);
    lemma_member_keys(r, "size"@);
    lemma_member_keys(r, "style"@);
    lemma_member_keys(r, "user"@);
    if vn.is_some() {
        lemma_optional_member("n"@, vn, "n"@);
        lemma_contains_concat(head, optional_member("n"@, vn), ("n"@, vn.unwrap()));
        lemma_contains_concat(s1, optional_member("quality"@, vq), ("n"@, vn.unwrap()));
        lemma_contains_concat(s2, optional_member("response_format"@, vf), ("n"@, vn.unwrap()));
        lemma_contains_concat(s3, optional_member("size"@, vz), ("n"@, vn.unwrap()));
        lemma_contains_concat(s4, optional_member("style"@, vt), ("n"@, vn.unwrap()));
        lemma_contains_concat(s5, optional_member("user"@, vu), ("n"@, vn.unwrap()));
    }
    if vq.is_some() {
        lemma_optional_member("quality"@, vq, "quality"@);
        lemma_contains_concat(s1, optional_member("quality"@, vq), ("quality"@, vq.unwrap()));
        lemma_contains_concat(s2, optional_member("response_format"@, vf), ("quality"@, vq.unwrap()));
        lemma_contains_concat(s3, optional_member("size"@, vz), ("quality"@, vq.unwrap()));
        lemma_contains_concat(s4, optional_member("style"@, vt), ("quality"@, vq.unwrap()));
        lemma_contains_concat(s5, optional_member("user"@, vu), ("quality"@, vq.unwrap()));
    }
    if vf.is_some() {
        lemma_optional_member("response_format"@, vf, "response_format"@);
        lemma_contains_concat(s2, optional_member("response_format"@, vf), ("response_format"@, vf.unwrap()));
        lemma_contains_concat(s3, optional_member("size"@, vz), ("response_format"@, vf.unwrap()));
        lemma_contains_concat(s4, optional_member("style"@, vt), ("response_format"@, vf.unwrap()));
        lemma_contains_concat(s5, optional_member("user"@, vu), ("response_format"@, vf.unwrap()));
    }
    if vz.is_some() {
        lemma_optional_member("size"@, vz, "size"@);
        lemma_contains_concat(s3, optional_member("size"@, vz), ("size"@, vz.unwrap()));
        lemma_contains_concat(s4, optional_member("style"@, vt), ("size"@, vz.unwrap()));
        lemma_contains_concat(s5, optional_member("user"@, vu), ("size"@, vz.unwrap()));
    }
    if vt.is_some() {
        lemma_optional_member("style"@, vt, "style"@);
        lemma_contains_concat(s4, optional_member("style"@, vt), ("style"@, vt.unwrap()));
        lemma_contains_concat(s5, optional_member("user"@, vu), ("style"@, vt.unwrap()));
    }
    if vu.is_some() {
        lemma_optional_member("user"@, vu, "user"@);
        lemma_contains_concat(s5, optional_member("user"@, vu), ("user"@, vu.unwrap()));
    }
}

} // verus!
