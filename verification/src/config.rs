//! The configuration of the monitor and how it is made from the settings
//! that the environment holds.

use vstd::prelude::*;
use crate::detector::Score;
use crate::error::ConfigError;
use crate::printer::text_or;
use crate::text::{pieces, split};

pub mod constants;

verus! {

/// Whether `c` is white space: a character with the Unicode property
/// White_Space.
pub open spec fn is_space(c: char) -> bool {
    let u = c as u32;
    ||| 0x09 <= u <= 0x0D
    ||| u == 0x20
    ||| u == 0x85
    ||| u == 0xA0
    ||| u == 0x1680
    ||| 0x2000 <= u <= 0x200A
    ||| u == 0x2028
    ||| u == 0x2029
    ||| u == 0x202F
    ||| u == 0x205F
    ||| u == 0x3000
}

/// `s` without the white space at its start and at its end.
pub open spec fn trimmed(s: Seq<char>) -> Seq<char>
    decreases s.len(),
{
    if s.len() > 0 && is_space(s[0]) {
        trimmed(s.drop_first())
    } else if s.len() > 0 && is_space(s.last()) {
        trimmed(s.drop_last())
    } else {
        s
    }
}

/// The pieces with the white space around them taken off, without those
/// of which nothing is left.
pub open spec fn kept_pieces(pieces: Seq<Seq<char>>) -> Seq<Seq<char>>
    decreases pieces.len(),
{
    if pieces.len() == 0 {
        Seq::empty()
    } else {
        let earlier = kept_pieces(pieces.drop_last());
        let piece = trimmed(pieces.last());
        if piece.len() > 0 {
            earlier.push(piece)
        } else {
            earlier
        }
    }
}

/// The sources that a list separated by commas names.
pub open spec fn url_list(text: Seq<char>) -> Seq<Seq<char>> {
    kept_pieces(pieces(text, ','))
}

/// The value of a decimal digit, if `c` is one.
pub open spec fn digit_value(c: char) -> Option<nat> {
    let u = c as u32;
    if 0x30 <= u <= 0x39 {
        Some((u - 0x30) as nat)
    } else {
        None
    }
}

/// The number that a run of decimal digits stands for; `None` where `s` is
/// empty or holds anything but digits.
pub open spec fn digits_value(s: Seq<char>) -> Option<nat>
    decreases s.len(),
{
    if s.len() == 0 {
        None
    } else {
        match digit_value(s.last()) {
            None => None,
            Some(d) => if s.len() == 1 {
                Some(d)
            } else {
                match digits_value(s.drop_last()) {
                    Some(v) => Some(v * 10 + d),
                    None => None,
                }
            },
        }
    }
}

/// The index that `text` names among `count` sources: the number it
/// stands for, written in decimal digits with or without a plus sign before
/// them, where that is below `count`.
pub open spec fn source_index(text: Seq<char>, count: nat) -> Option<usize> {
    let digits = if text.len() > 0 && text[0] == '+' {
        text.drop_first()
    } else {
        text
    };
    match digits_value(digits) {
        Some(v) => if v < count && v <= usize::MAX {
            Some(v as usize)
        } else {
            None
        },
        None => None,
    }
}

/// Whether `c` is white space.
pub fn is_space_char(c: char) -> (r: bool)
    ensures
        r == is_space(c),
{
    let u = c as u32;
    (0x09 <= u && u <= 0x0D) || u == 0x20 || u == 0x85 || u == 0xA0 || u == 0x1680 || (0x2000 <= u
        && u <= 0x200A) || u == 0x2028 || u == 0x2029 || u == 0x202F || u == 0x205F || u == 0x3000
}

/// Between `start` and `end` lies what trimming leaves of `s`: before and
/// after it there is only white space, and it neither starts nor ends with
/// white space.
pub open spec fn is_core(s: Seq<char>, start: int, end: int) -> bool {
    &&& 0 <= start <= end <= s.len()
    &&& forall|j: int| 0 <= j < start ==> is_space(#[trigger] s[j])
    &&& forall|j: int| end <= j < s.len() ==> is_space(#[trigger] s[j])
    &&& start < end ==> !is_space(s[start]) && !is_space(s[end - 1])
}

/// Trimming leaves exactly the part between the white space at the start
/// and the white space at the end.
pub proof fn lemma_trimmed_is_core(s: Seq<char>, start: int, end: int)
    requires
        is_core(s, start, end),
    ensures
        trimmed(s) == s.subrange(start, end),
    decreases s.len(),
{
    if s.len() > 0 && is_space(s[0]) {
        let rest = s.drop_first();
        if start == 0 {
            assert(end == 0);
            assert forall|j: int| 0 <= j < rest.len() implies is_space(#[trigger] rest[j]) by {
                assert(rest[j] == s[j + 1]);
            }
            lemma_trimmed_is_core(rest, 0, 0);
            assert(rest.subrange(0, 0) =~= s.subrange(0, 0));
        } else {
            assert forall|j: int| 0 <= j < start - 1 implies is_space(#[trigger] rest[j]) by {
                assert(rest[j] == s[j + 1]);
            }
            assert forall|j: int| end - 1 <= j < rest.len() implies is_space(
                #[trigger] rest[j],
            ) by {
                assert(rest[j] == s[j + 1]);
            }
            if start < end {
                assert(rest[start - 1] == s[start]);
                assert(rest[end - 2] == s[end - 1]);
            }
            lemma_trimmed_is_core(rest, start - 1, end - 1);
            assert(rest.subrange(start - 1, end - 1) =~= s.subrange(start, end));
        }
    } else if s.len() > 0 && is_space(s.last()) {
        let rest = s.drop_last();
        assert(start == 0) by {
            if start > 0 {
                assert(is_space(s[0]));
            }
        }
        assert(end < s.len()) by {
            if end == s.len() {
                assert(!is_space(s[end - 1]));
            }
        }
        assert forall|j: int| end <= j < rest.len() implies is_space(#[trigger] rest[j]) by {
            assert(rest[j] == s[j]);
        }
        if start < end {
            assert(rest[start] == s[start]);
            assert(rest[end - 1] == s[end - 1]);
        }
        lemma_trimmed_is_core(rest, start, end);
        assert(rest.subrange(start, end) =~= s.subrange(start, end));
    } else if s.len() > 0 {
        assert(start == 0) by {
            if start > 0 {
                assert(is_space(s[0]));
            }
        }
        assert(end == s.len()) by {
            if end < s.len() {
                assert(is_space(s[s.len() - 1]));
            }
        }
        assert(s.subrange(0, s.len() as int) =~= s);
    } else {
        assert(s.subrange(0, 0) =~= s);
    }
}

/// `text` without the white space at its start and at its end.
pub fn trim(text: &str) -> (r: &str)
    ensures
        r@ == trimmed(text@),
{
    let n = text.unicode_len();
    let mut start: usize = 0;
    loop
        invariant
            start <= n,
            n == text@.len(),
            forall|j: int| 0 <= j < start ==> is_space(#[trigger] text@[j]),
        ensures
            start <= n,
            forall|j: int| 0 <= j < start ==> is_space(#[trigger] text@[j]),
            start < n ==> !is_space(text@[start as int]),
        decreases n - start,
    {
        if start == n {
            break ;
        }
        if !is_space_char(text.get_char(start)) {
            break ;
        }
        start = start + 1;
    }
    let mut end: usize = n;
    loop
        invariant
            start <= end <= n,
            n == text@.len(),
            forall|j: int| end <= j < n ==> is_space(#[trigger] text@[j]),
        ensures
            start <= end <= n,
            forall|j: int| end <= j < n ==> is_space(#[trigger] text@[j]),
            start < end ==> !is_space(text@[end - 1]),
        decreases end - start,
    {
        if end == start {
            break ;
        }
        if !is_space_char(text.get_char(end - 1)) {
            break ;
        }
        end = end - 1;
    }
    proof {
        lemma_trimmed_is_core(text@, start as int, end as int);
    }
    text.substring_char(start, end)
}

/// Reads a list of sources separated by commas: each entry without the
/// white space around it, empty entries left out.
pub fn parse_image_urls(text: &str) -> (r: Vec<String>)
    ensures
        r.deep_view() == url_list(text@),
{
    let pieces = split(text, ',');
    let mut urls: Vec<String> = Vec::new();
    let mut i: usize = 0;
    assert(pieces.deep_view().take(0) =~= Seq::empty());
    assert(urls.deep_view() =~= Seq::empty());
    while i < pieces.len()
        invariant
            i <= pieces.len(),
            urls.deep_view() == kept_pieces(pieces.deep_view().take(i as int)),
        decreases pieces.len() - i,
    {
        let ghost before = urls.deep_view();
        proof {
            let all = pieces.deep_view();
            assert(all.take(i + 1).drop_last() =~= all.take(i as int));
            assert(all.take(i + 1).last() == pieces[i as int]@);
        }
        let piece = trim(pieces[i].as_str());
        if piece.unicode_len() > 0 {
            urls.push(String::from_str(piece));
            assert(urls.deep_view() =~= before.push(piece@));
        }
        i = i + 1;
    }
    assert(pieces.deep_view().take(pieces.len() as int) =~= pieces.deep_view());
    urls
}

/// The value of a decimal digit, if `c` is one.
pub fn digit_of(c: char) -> (r: Option<u8>)
    ensures
        match r {
            Some(d) => digit_value(c) == Some(d as nat),
            None => digit_value(c) is None,
        },
{
    let u = c as u32;
    if 0x30 <= u && u <= 0x39 {
        Some((u - 0x30) as u8)
    } else {
        None
    }
}

/// Reads the index of a source among `count` sources.
pub fn parse_source_index(text: &str, count: usize) -> (r: Option<usize>)
    ensures
        r == source_index(text@, count as nat),
{
    let n = text.unicode_len();
    let first: usize = if n > 0 && text.get_char(0) == '+' {
        1
    } else {
        0
    };
    let ghost digits = text@.subrange(first as int, n as int);
    proof {
        if first == 1 {
            assert(digits =~= text@.drop_first());
        } else {
            assert(digits =~= text@);
        }
    }
    if first == n {
        return None;
    }
    let mut value: usize = 0;
    let mut beyond = false;
    let mut i: usize = first;
    while i < n
        invariant
            first <= i <= n,
            first < n,
            n == text@.len(),
            digits == text@.subrange(first as int, n as int),
            digits == (if text@.len() > 0 && text@[0] == '+' {
                text@.drop_first()
            } else {
                text@
            }),
            i > first ==> (match digits_value(digits.take(i - first)) {
                Some(v) => if beyond {
                    v >= count
                } else {
                    v == value && v < count
                },
                None => false,
            }),
            i == first ==> value == 0 && !beyond,
        decreases n - i,
    {
        proof {
            assert(digits.take(i - first + 1).drop_last() =~= digits.take(i - first));
            assert(digits.take(i - first + 1).last() == text@[i as int]);
        }
        match digit_of(text.get_char(i)) {
            None => {
                proof {
                    assert(digits[i - first] == text@[i as int]);
                    lemma_digits_value_needs_digits(digits, i - first);
                }
                return None;
            },
            Some(d) => {
                if !beyond {
                    let next: u128 = (value as u128) * 10 + d as u128;
                    if next >= count as u128 {
                        beyond = true;
                    } else {
                        value = next as usize;
                    }
                }
            },
        }
        i = i + 1;
    }
    proof {
        assert(digits.take(n - first) =~= digits);
    }
    if beyond {
        None
    } else {
        Some(value)
    }
}

/// A text with a character that is no digit stands for no number.
pub proof fn lemma_digits_value_needs_digits(s: Seq<char>, at: int)
    requires
        0 <= at < s.len(),
        digit_value(s[at]) is None,
    ensures
        digits_value(s) is None,
    decreases s.len(),
{
    if at < s.len() - 1 {
        assert(s.drop_last()[at] == s[at]);
        lemma_digits_value_needs_digits(s.drop_last(), at);
    }
}

/// A threshold as the environment holds it: the text, and the score that
/// the text denotes if it denotes a number.
#[derive(Debug, Clone, PartialEq, Eq)]
pub struct ScoreSetting {
    pub text: String,
    pub value: Option<Score>,
}

/// The settings that the environment holds; `None` where a variable is
/// not set.
#[derive(Debug, Clone, PartialEq, Eq)]
pub struct Settings {
    /// `LABEL_FILE`
    pub label_file: Option<String>,
    /// `MODEL_CFG`
    pub model_cfg: Option<String>,
    /// `WEIGHTS_FILE`
    pub weights_file: Option<String>,
    /// `OUTPUT_DIR`
    pub output_dir: Option<String>,
    /// `OBJECTNESS_THRESHOLD`
    pub objectness_threshold: Option<ScoreSetting>,
    /// `CLASS_PROB_THRESHOLD`
    pub class_prob_threshold: Option<ScoreSetting>,
    /// `IMAGE_URL`
    pub image_url: Option<String>,
    /// `DISCORD_WEBHOOK`
    pub discord_webhook: Option<String>,
    /// `MOONRAKER_API_URL`
    pub moonraker_api_url: Option<String>,
    /// `FLIP_IMAGE`
    pub flip_image: Option<String>,
    /// `DISPLAY_CAMERA_INDEX`
    pub display_camera_index: Option<String>,
}

/// The configuration of the monitor.
#[derive(Debug, Clone, PartialEq, Eq)]
pub struct Config {
    /// File with one class label per line.
    pub label_file: String,
    /// File with the configuration of the model.
    pub model_cfg: String,
    /// File with the weights of the model.
    pub weights: String,
    /// Directory for output.
    pub output_dir: String,
    /// Objectness above which a candidate is looked at.
    pub objectness_threshold: Score,
    /// Class probability above which a candidate is accepted.
    pub class_prob_threshold: Score,
    /// The image sources, in rotation order; there is at least one.
    pub image_urls: Vec<String>,
    /// Webhook of the operator channel.
    pub discord_webhook: String,
    /// Base URL of the printer control API.
    pub moonraker_api_url: String,
    /// Whether fetched images are flipped top to bottom.
    pub flip_image: bool,
    /// The source whose images go out with status notifications.
    pub display_camera_index: Option<usize>,
}

/// Whether a threshold setting denotes no number.
pub open spec fn is_no_number(setting: Option<ScoreSetting>) -> bool {
    setting matches Some(s) && s.value is None
}

/// The threshold that a setting stands for; three quarters where none is
/// set.
pub open spec fn threshold_of(setting: Option<ScoreSetting>) -> Score {
    match setting {
        Some(s) => s.value->0,
        None => Score { bits: constants::DEFAULT_THRESHOLD_BITS },
    }
}

/// Whether a flip setting is neither "true" nor "false".
pub open spec fn is_no_flag(setting: Option<String>) -> bool {
    setting matches Some(s) && s@ != "true"@ && s@ != "false"@
}

/// Whether `r` reports that the required variable `name` is not set.
pub open spec fn reports_missing(r: Result<Config, ConfigError>, name: Seq<char>) -> bool {
    r matches Err(ConfigError::MissingEnvVar { var_name }) && var_name@ == name
}

/// Whether `r` reports that `field` has the unusable value `value`.
pub open spec fn reports_invalid(
    r: Result<Config, ConfigError>,
    field: Seq<char>,
    value: Seq<char>,
    reason: Seq<char>,
) -> bool {
    &&& r matches Err(ConfigError::InvalidValue { field: f, value: v, reason: why })
    &&& f@ == field
    &&& v@ == value
    &&& why@ == reason
}

/// Whether `config` is what complete settings come to.
pub open spec fn configured(s: Settings, config: Config) -> bool {
    &&& config.label_file@ == text_or(s.label_file, "./labels.txt"@)
    &&& config.model_cfg@ == text_or(s.model_cfg, "./model.cfg"@)
    &&& config.weights@ == text_or(s.weights_file, "./model/model-weights.darknet"@)
    &&& config.output_dir@ == text_or(s.output_dir, "./output"@)
    &&& config.objectness_threshold == threshold_of(s.objectness_threshold)
    &&& config.class_prob_threshold == threshold_of(s.class_prob_threshold)
    &&& config.image_urls.deep_view() == url_list(s.image_url->0@)
    &&& config.discord_webhook@ == s.discord_webhook->0@
    &&& config.moonraker_api_url@ == s.moonraker_api_url->0@
    &&& config.flip_image == (s.flip_image matches Some(flag) && flag@ == "true"@)
    &&& config.display_camera_index == source_index(
        text_or(s.display_camera_index, "0"@),
        config.image_urls.len() as nat,
    )
}

/// What loading `s` comes to: the first fault found, in the order
/// objectness threshold, class threshold, sources, webhook, printer API,
/// flip flag; or the configuration where there is none.
pub open spec fn load_outcome(s: Settings, r: Result<Config, ConfigError>) -> bool {
    if is_no_number(s.objectness_threshold) {
        reports_invalid(
            r,
            "OBJECTNESS_THRESHOLD"@,
            s.objectness_threshold->0.text@,
            "not a number"@,
        )
    } else if is_no_number(s.class_prob_threshold) {
        reports_invalid(
            r,
            "CLASS_PROB_THRESHOLD"@,
            s.class_prob_threshold->0.text@,
            "not a number"@,
        )
    } else if s.image_url is None {
        reports_missing(r, "IMAGE_URL"@)
    } else if url_list(s.image_url->0@).len() == 0 {
        reports_invalid(
            r,
            "IMAGE_URL"@,
            s.image_url->0@,
            "IMAGE_URL must contain at least one valid URL"@,
        )
    } else if s.discord_webhook is None {
        reports_missing(r, "DISCORD_WEBHOOK"@)
    } else if s.moonraker_api_url is None {
        reports_missing(r, "MOONRAKER_API_URL"@)
    } else if is_no_flag(s.flip_image) {
        reports_invalid(r, "FLIP_IMAGE"@, s.flip_image->0@, "must be 'true' or 'false'"@)
    } else {
        r matches Ok(config) && configured(s, config)
    }
}

fn or_default(setting: &Option<String>, default: &str) -> (r: String)
    ensures
        r@ == text_or(*setting, default@),
{
    match setting {
        Some(text) => String::from_str(text.as_str()),
        None => String::from_str(default),
    }
}

fn missing(name: &str) -> (r: Result<Config, ConfigError>)
    ensures
        reports_missing(r, name@),
{
    Err(ConfigError::MissingEnvVar { var_name: String::from_str(name) })
}

fn invalid(field: &str, value: &str, reason: &str) -> (r: Result<Config, ConfigError>)
    ensures
        reports_invalid(r, field@, value@, reason@),
{
    Err(
        ConfigError::InvalidValue {
            field: String::from_str(field),
            value: String::from_str(value),
            reason: String::from_str(reason),
        },
    )
}

impl Config {
    /// Makes the configuration from the settings of the environment.
    /// Paths and thresholds that are not set take their defaults; the
    /// sources, the webhook and the printer API have to be set, and there
    /// has to be at least one source. The source for status images is the
    /// one that `DISPLAY_CAMERA_INDEX` names, the first where it is not
    /// set, and none where it names no source.
    pub fn load(settings: &Settings) -> (r: Result<Config, ConfigError>)
        ensures
            load_outcome(*settings, r),
            r matches Ok(config) ==> config.image_urls.len() > 0,
            r matches Ok(config) ==> (config.display_camera_index matches Some(index) ==> index
                < config.image_urls.len()),
    {
        let objectness_threshold = match &settings.objectness_threshold {
            Some(setting) => match setting.value {
                Some(value) => value,
                None => {
                    return invalid("OBJECTNESS_THRESHOLD", setting.text.as_str(), "not a number");
                },
            },
            None => Score { bits: constants::DEFAULT_THRESHOLD_BITS },
        };
        let class_prob_threshold = match &settings.class_prob_threshold {
            Some(setting) => match setting.value {
                Some(value) => value,
                None => {
                    return invalid("CLASS_PROB_THRESHOLD", setting.text.as_str(), "not a number");
                },
            },
            None => Score { bits: constants::DEFAULT_THRESHOLD_BITS },
        };
        let image_url = match &settings.image_url {
            Some(text) => text.as_str(),
            None => {
                return missing("IMAGE_URL");
            },
        };
        let image_urls = parse_image_urls(image_url);
        if image_urls.len() == 0 {
            return invalid(
                "IMAGE_URL",
                image_url,
                "IMAGE_URL must contain at least one valid URL",
            );
        }
        let discord_webhook = match &settings.discord_webhook {
            Some(text) => String::from_str(text.as_str()),
            None => {
                return missing("DISCORD_WEBHOOK");
            },
        };
        let moonraker_api_url = match &settings.moonraker_api_url {
            Some(text) => String::from_str(text.as_str()),
            None => {
                return missing("MOONRAKER_API_URL");
            },
        };
        let flip_image = match &settings.flip_image {
            Some(text) => {
                if *text == String::from_str("true") {
                    true
                } else if *text == String::from_str("false") {
                    false
                } else {
                    return invalid("FLIP_IMAGE", text.as_str(), "must be 'true' or 'false'");
                }
            },
            None => false,
        };
        let display_camera_index = match &settings.display_camera_index {
            Some(text) => parse_source_index(text.as_str(), image_urls.len()),
            None => parse_source_index("0", image_urls.len()),
        };
        Ok(
            Config {
                label_file: or_default(&settings.label_file, "./labels.txt"),
                model_cfg: or_default(&settings.model_cfg, "./model.cfg"),
                weights: or_default(&settings.weights_file, "./model/model-weights.darknet"),
                output_dir: or_default(&settings.output_dir, "./output"),
                objectness_threshold,
                class_prob_threshold,
                image_urls,
                discord_webhook,
                moonraker_api_url,
                flip_image,
                display_camera_index,
            },
        )
    }
}

} // verus!
