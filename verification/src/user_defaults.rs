//! The defaults that the user has chosen for connections.

use vstd::prelude::*;
use crate::keys;
use crate::options::{
    can_save, drop_option, get_or, is_option_can_save, layered, said, text_or_empty, with_option,
    Options, Settings,
};
use crate::text::{i32_text, law_number_text_round_trip, parse_i32, parsed_i32, same_text, signed_decimal};
use crate::text_map::TextMap;

verus! {

/// How long the defaults are used before they are read again, in nanoseconds.
pub const RELOAD_AFTER_NANOS: u128 = 1_000_000_000;

/// The defaults that the user has chosen for connections.
pub struct UserDefaultConfig {
    pub options: TextMap<String>,
}

impl Default for UserDefaultConfig {
    fn default() -> (r: Self)
        ensures
            r.options@ == Options::empty(),
    {
        UserDefaultConfig { options: TextMap::new() }
    }
}

/// What a list of texts says.
pub open spec fn words(list: Seq<&str>) -> Seq<Seq<char>> {
    list.map_values(|s: &str| s@)
}

/// The value that was set, where it is one of the given ones, and the default otherwise.
pub open spec fn choice(
    set: Option<Seq<char>>,
    default: Seq<char>,
    others: Seq<Seq<char>>,
) -> Seq<char> {
    match set {
        Some(v) => if others.contains(v) {
            v
        } else {
            default
        },
        None => default,
    }
}

/// The number that was set, where it is one within the bounds, and the default otherwise.
pub open spec fn whole_number(set: Option<Seq<char>>, default: i32, min: i32, max: i32) -> i32 {
    match set {
        Some(v) => match parsed_i32(v) {
            Some(n) => if min <= n <= max {
                n
            } else {
                default
            },
            None => default,
        },
        None => default,
    }
}

/// The bounds of an option that is a decimal fraction: the default, the smallest and the largest
/// value.
pub open spec fn fraction(key: Seq<char>) -> Option<(i32, i32, i32)> {
    if key == keys::OPTION_CUSTOM_IMAGE_QUALITY@ {
        Some((100, 10, 4095))
    } else if key == keys::OPTION_CUSTOM_FPS@ {
        Some((60, 5, 120))
    } else {
        None
    }
}

/// The default that applies to an option. `set` is what was set; where the option is a decimal
/// fraction, `number` is what was set as a number within its bounds, as far as it is one.
pub open spec fn user_default(
    key: Seq<char>,
    mobile: bool,
    set: Option<Seq<char>>,
    number: Option<Seq<char>>,
) -> Seq<char> {
    if key == keys::OPTION_VIEW_STYLE@ {
        if mobile {
            choice(set, "adaptive"@, seq!["original"@])
        } else {
            choice(set, "original"@, seq!["adaptive"@])
        }
    } else if key == keys::OPTION_SCROLL_STYLE@ {
        choice(set, "scrollauto"@, seq!["scrolledge"@, "scrollbar"@])
    } else if key == keys::OPTION_IMAGE_QUALITY@ {
        choice(set, "custom"@, seq!["best"@, "balanced"@, "low"@])
    } else if key == keys::OPTION_CODEC_PREFERENCE@ {
        choice(set, "auto"@, seq!["vp8"@, "vp9"@, "av1"@, "h264"@, "h265"@])
    } else if fraction(key) is Some {
        match number {
            Some(number) => number,
            None => signed_decimal((fraction(key)->Some_0).0 as int),
        }
    } else if key == keys::OPTION_ENABLE_FILE_COPY_PASTE@ {
        choice(set, "Y"@, seq![""@, "N"@])
    } else if key == keys::OPTION_EDGE_SCROLL_EDGE_THICKNESS@ {
        signed_decimal(whole_number(set, 100, 20, 150) as int)
    } else if key == keys::OPTION_TRACKPAD_SPEED@ {
        signed_decimal(whole_number(set, 100, 10, 1000) as int)
    } else {
        crate::options::or_empty(set)
    }
}

/// The stored defaults after one of them has been set: an empty value takes it out, and so does a
/// value that may not be saved.
pub open spec fn with_user_default(
    over: Options,
    defaults: Options,
    m: Options,
    k: Seq<char>,
    v: Seq<char>,
) -> Options {
    if can_save(over, k, defaults, v) {
        with_option(m, k, v)
    } else {
        m.remove(k)
    }
}

impl UserDefaultConfig {
    /// Whether defaults of the given age, in nanoseconds, have to be read again.
    pub fn is_stale(age: u128) -> (r: bool)
        ensures
            r == (age > RELOAD_AFTER_NANOS),
            r <==> age > 1_000_000_000,
    {
        age > RELOAD_AFTER_NANOS
    }

    /// The bounds of an option that is a decimal fraction: the default, the smallest and the
    /// largest value.
    pub fn fraction_bounds(key: &str) -> (r: Option<(i32, i32, i32)>)
        ensures
            r == fraction(key@),
    {
        if same_text(key, keys::OPTION_CUSTOM_IMAGE_QUALITY) {
            Some((100, 10, 4095))
        } else if same_text(key, keys::OPTION_CUSTOM_FPS) {
            Some((60, 5, 120))
        } else {
            None
        }
    }

    /// The default that applies to an option.
    ///
    /// `mobile` tells whether this is a mobile device. Where the option is a decimal fraction,
    /// `number` is what [`UserDefaultConfig::get_after`] gives, written as a number, as far as it
    /// is one within the bounds that [`UserDefaultConfig::fraction_bounds`] gives.
    pub fn get(
        &self,
        settings: &Settings,
        key: &str,
        mobile: bool,
        number: Option<String>,
    ) -> (r: String)
        ensures
            r@ == user_default(
                key@,
                mobile,
                layered(
                    settings.overwrite_display_settings@,
                    self.options@,
                    settings.default_display_settings@,
                    key@,
                ),
                said(number),
            ),
    {
        if same_text(key, keys::OPTION_VIEW_STYLE) {
            if mobile {
                let others = vec!["original"];
                assert(words(others@) =~= seq!["original"@]);
                return self.get_string(settings, key, "adaptive", others);
            }
            let others = vec!["adaptive"];
            assert(words(others@) =~= seq!["adaptive"@]);
            return self.get_string(settings, key, "original", others);
        }
        if same_text(key, keys::OPTION_SCROLL_STYLE) {
            let others = vec!["scrolledge", "scrollbar"];
            assert(words(others@) =~= seq!["scrolledge"@, "scrollbar"@]);
            return self.get_string(settings, key, "scrollauto", others);
        }
        if same_text(key, keys::OPTION_IMAGE_QUALITY) {
            let others = vec!["best", "balanced", "low"];
            assert(words(others@) =~= seq!["best"@, "balanced"@, "low"@]);
            return self.get_string(settings, key, "custom", others);
        }
        if same_text(key, keys::OPTION_CODEC_PREFERENCE) {
            let others = vec!["vp8", "vp9", "av1", "h264", "h265"];
            assert(words(others@) =~= seq!["vp8"@, "vp9"@, "av1"@, "h264"@, "h265"@]);
            return self.get_string(settings, key, "auto", others);
        }
        if let Some(bounds) = Self::fraction_bounds(key) {
            return match number {
                Some(number) => number,
                None => i32_text(bounds.0),
            };
        }
        if same_text(key, keys::OPTION_ENABLE_FILE_COPY_PASTE) {
            let others = vec!["", "N"];
            assert(words(others@) =~= seq![""@, "N"@]);
            return self.get_string(settings, key, "Y", others);
        }
        if same_text(key, keys::OPTION_EDGE_SCROLL_EDGE_THICKNESS) {
            return self.get_num_string(settings, key, 100, 20, 150);
        }
        if same_text(key, keys::OPTION_TRACKPAD_SPEED) {
            return self.get_num_string(settings, key, 100, 10, 1000);
        }
        text_or_empty(self.get_after(settings, key))
    }

    /// Sets a default; an empty value takes it out, and so does a value that may not be saved.
    /// Tells whether there is something to store.
    pub fn set(&mut self, settings: &Settings, key: String, value: String) -> (store: bool)
        ensures
            final(self).options@ == with_user_default(
                settings.overwrite_display_settings@,
                settings.default_display_settings@,
                old(self).options@,
                key@,
                value@,
            ),
            store == (can_save(
                settings.overwrite_display_settings@,
                key@,
                settings.default_display_settings@,
                value@,
            ) || old(self).options@.contains_key(key@)),
    {
        if !is_option_can_save(
            &settings.overwrite_display_settings,
            key.as_str(),
            &settings.default_display_settings,
            value.as_str(),
        ) {
            return self.options.remove(key.as_str());
        }
        if value.as_str().is_empty() {
            drop_option(&mut self.options, key.as_str());
        } else {
            self.options.insert(key, value);
        }
        true
    }

    /// The value of an option that is one of some texts, with a default.
    pub fn get_string(
        &self,
        settings: &Settings,
        key: &str,
        default: &str,
        others: Vec<&str>,
    ) -> (r: String)
        ensures
            r@ == choice(
                layered(
                    settings.overwrite_display_settings@,
                    self.options@,
                    settings.default_display_settings@,
                    key@,
                ),
                default@,
                words(others@),
            ),
    {
        if let Some(option) = self.get_after(settings, key) {
            let mut i: usize = 0;
            while i < others.len()
                invariant
                    i <= others.len(),
                    layered(
                        settings.overwrite_display_settings@,
                        self.options@,
                        settings.default_display_settings@,
                        key@,
                    ) == Some(option@),
                    forall|j: int| 0 <= j < i ==> (#[trigger] others@[j])@ != option@,
                decreases others.len() - i,
            {
                if same_text(others[i], option.as_str()) {
                    assert(words(others@)[i as int] == option@);
                    return option;
                }
                i += 1;
            }
            assert(!words(others@).contains(option@)) by {
                if words(others@).contains(option@) {
                    let j = choose|j: int| 0 <= j < words(others@).len() && words(others@)[j] == option@;
                    assert(others@[j]@ == option@);
                }
            }
        }
        default.to_owned()
    }

    /// The value of an option that is a whole number within bounds, with a default.
    pub fn get_num_string(
        &self,
        settings: &Settings,
        key: &str,
        default: i32,
        min: i32,
        max: i32,
    ) -> (r: String)
        ensures
            r@ == signed_decimal(
                whole_number(
                    layered(
                        settings.overwrite_display_settings@,
                        self.options@,
                        settings.default_display_settings@,
                        key@,
                    ),
                    default,
                    min,
                    max,
                ) as int,
            ),
    {
        if let Some(option) = self.get_after(settings, key) {
            if let Some(v) = parse_i32(option.as_str()) {
                if v >= min && v <= max {
                    return i32_text(v);
                }
            }
        }
        i32_text(default)
    }

    /// The value of an option, as far as it has one.
    pub fn get_after(&self, settings: &Settings, k: &str) -> (r: Option<String>)
        ensures
            said(r) == layered(
                settings.overwrite_display_settings@,
                self.options@,
                settings.default_display_settings@,
                k@,
            ),
    {
        get_or(
            &settings.overwrite_display_settings,
            &self.options,
            &settings.default_display_settings,
            k,
        )
    }
}

// ---------------------------------------------------------------------------------------------
// Laws
// ---------------------------------------------------------------------------------------------

/// What is set is read back, unless the option is overwritten; the empty value gives way to the
/// default.
pub proof fn law_user_default_is_read_back(
    over: Options,
    defaults: Options,
    m: Options,
    k: Seq<char>,
    v: Seq<char>,
)
    requires
        !over.contains_key(k),
    ensures
        layered(over, with_user_default(over, defaults, m, k, v), defaults, k) == (if v.len() == 0 {
            layered(over, Options::empty(), defaults, k)
        } else {
            Some(v)
        }),
{
}

/// Whatever was set, the value of an option that is one of some texts is one of them or the
/// default.
pub proof fn law_choice_is_allowed(
    set: Option<Seq<char>>,
    default: Seq<char>,
    others: Seq<Seq<char>>,
)
    ensures
        choice(set, default, others) == default || others.contains(choice(set, default, others)),
{
}

/// Whatever was set, the value of an option that is a whole number reads as a number within its
/// bounds.
pub proof fn law_whole_number_is_within_bounds(
    set: Option<Seq<char>>,
    default: i32,
    min: i32,
    max: i32,
)
    requires
        min <= default <= max,
    ensures
        parsed_i32(signed_decimal(whole_number(set, default, min, max) as int)) matches Some(n)
            && min <= n <= max,
{
    law_number_text_round_trip(whole_number(set, default, min, max));
}

/// The style of the view is the one that was set, original or adaptive; where neither was, it is
/// adaptive on mobile devices and original on others.
pub proof fn law_view_style_is_as_set(
    mobile: bool,
    set: Option<Seq<char>>,
    number: Option<Seq<char>>,
)
    ensures
        ({
            let r = user_default("view_style"@, mobile, set, number);
            &&& set == Some("original"@) || set == Some("adaptive"@) ==> r == set->Some_0
            &&& set != Some("original"@) && set != Some("adaptive"@) ==> r == (if mobile {
                "adaptive"@
            } else {
                "original"@
            })
        }),
{
    lemma_texts_of_choices(set->Some_0);
}

/// The style of scrolling is the one that was set, by the edge or by the bar, and is automatic
/// otherwise.
pub proof fn law_scroll_style_is_as_set(
    mobile: bool,
    set: Option<Seq<char>>,
    number: Option<Seq<char>>,
)
    ensures
        ({
            let r = user_default("scroll_style"@, mobile, set, number);
            &&& set == Some("scrolledge"@) || set == Some("scrollbar"@) ==> r == set->Some_0
            &&& set != Some("scrolledge"@) && set != Some("scrollbar"@) ==> r == "scrollauto"@
        }),
{
    lemma_texts_of_choices(set->Some_0);
    lemma_names_of_options_differ();
}

/// The quality of the image is the one that was set, best, balanced or low, and is custom
/// otherwise.
pub proof fn law_image_quality_is_as_set(
    mobile: bool,
    set: Option<Seq<char>>,
    number: Option<Seq<char>>,
)
    ensures
        ({
            let r = user_default("image_quality"@, mobile, set, number);
            &&& set == Some("best"@) || set == Some("balanced"@) || set == Some("low"@) ==> r
                == set->Some_0
            &&& set != Some("best"@) && set != Some("balanced"@) && set != Some("low"@) ==> r
                == "custom"@
        }),
{
    lemma_texts_of_choices(set->Some_0);
    lemma_names_of_options_differ();
}

/// The preferred codec is the one that was set, where it is one of the five, and is chosen
/// automatically otherwise.
pub proof fn law_codec_is_as_set(
    mobile: bool,
    set: Option<Seq<char>>,
    number: Option<Seq<char>>,
)
    ensures
        ({
            let r = user_default("codec-preference"@, mobile, set, number);
            let known = set == Some("vp8"@) || set == Some("vp9"@) || set == Some("av1"@) || set
                == Some("h264"@) || set == Some("h265"@);
            &&& known ==> r == set->Some_0
            &&& !known ==> r == "auto"@
        }),
{
    lemma_texts_of_choices(set->Some_0);
    lemma_names_of_options_differ();
}

/// Copying and pasting files is off where it was set to `N` or to the empty text, and on
/// otherwise.
pub proof fn law_file_copy_paste_is_as_set(
    mobile: bool,
    set: Option<Seq<char>>,
    number: Option<Seq<char>>,
)
    ensures
        ({
            let r = user_default("enable-file-copy-paste"@, mobile, set, number);
            &&& set == Some(""@) || set == Some("N"@) ==> r == set->Some_0
            &&& set != Some(""@) && set != Some("N"@) ==> r == "Y"@
        }),
{
    lemma_texts_of_choices(set->Some_0);
    lemma_names_of_options_differ();
}

/// The custom image quality and the frame rate are the numbers that were set, as far as they are
/// numbers within their bounds, and 100 and 60 otherwise.
pub proof fn law_fractions_are_as_set(
    mobile: bool,
    set: Option<Seq<char>>,
    number: Option<Seq<char>>,
)
    ensures
        number matches Some(n) ==> user_default("custom_image_quality"@, mobile, set, number) == n
            && user_default("custom-fps"@, mobile, set, number) == n,
        number is None ==> parsed_i32(user_default("custom_image_quality"@, mobile, set, number))
            == Some(100i32) && parsed_i32(user_default("custom-fps"@, mobile, set, number)) == Some(
            60i32,
        ),
{
    lemma_names_of_options_differ();
    law_number_text_round_trip(100);
    law_number_text_round_trip(60);
}

/// The custom image quality lies between 10 and 4095 and the frame rate between 5 and 120; their
/// defaults are 100 and 60, and no other option is a fraction.
pub proof fn law_bounds_of_fractions(key: Seq<char>)
    ensures
        fraction(key) matches Some(bounds) ==> bounds.1 <= bounds.0 <= bounds.2,
        fraction(key) is Some <==> key == "custom_image_quality"@ || key == "custom-fps"@,
        key == "custom_image_quality"@ ==> fraction(key) == Some((100i32, 10i32, 4095i32)),
        key == "custom-fps"@ ==> fraction(key) == Some((60i32, 5i32, 120i32)),
{
    lemma_names_of_options_differ();
}

/// The thickness of the edge and the speed of the trackpad are the numbers that were set, where
/// these are between 20 and 150, and between 10 and 1000, and are 100 otherwise.
pub proof fn law_whole_numbers_are_as_set(
    mobile: bool,
    set: Option<Seq<char>>,
    number: Option<Seq<char>>,
)
    ensures
        ({
            let edge = parsed_i32(user_default("edge-scroll-edge-thickness"@, mobile, set, number));
            let speed = parsed_i32(user_default("trackpad-speed"@, mobile, set, number));
            let n = match set {
                Some(v) => parsed_i32(v),
                None => None,
            };
            &&& n is Some && 20 <= n->Some_0 <= 150 ==> edge == n
            &&& !(n is Some && 20 <= n->Some_0 <= 150) ==> edge == Some(100i32)
            &&& n is Some && 10 <= n->Some_0 <= 1000 ==> speed == n
            &&& !(n is Some && 10 <= n->Some_0 <= 1000) ==> speed == Some(100i32)
        }),
{
    lemma_names_of_options_differ();
    law_number_text_round_trip(whole_number(set, 100, 20, 150));
    law_number_text_round_trip(whole_number(set, 100, 10, 1000));
}

/// Every other option is as it was set, and empty where it was not.
pub proof fn law_other_defaults_are_as_set(
    key: Seq<char>,
    mobile: bool,
    set: Option<Seq<char>>,
    number: Option<Seq<char>>,
)
    requires
        key != "view_style"@,
        key != "scroll_style"@,
        key != "image_quality"@,
        key != "codec-preference"@,
        key != "custom_image_quality"@,
        key != "custom-fps"@,
        key != "enable-file-copy-paste"@,
        key != "edge-scroll-edge-thickness"@,
        key != "trackpad-speed"@,
    ensures
        set matches Some(v) ==> user_default(key, mobile, set, number) == v,
        set is None ==> user_default(key, mobile, set, number).len() == 0,
{
}

/// A value that is one of the allowed ones is given back, and the default is given for every other
/// one.
pub proof fn law_allowed_choices_are_given_back(
    default: Seq<char>,
    others: Seq<Seq<char>>,
    i: int,
    v: Seq<char>,
)
    ensures
        0 <= i < others.len() ==> choice(Some(others[i]), default, others) == others[i],
        choice(None, default, others) == default,
        choice(Some(default), default, others) == default,
        (forall|j: int| 0 <= j < others.len() ==> #[trigger] others[j] != v) ==> choice(
            Some(v),
            default,
            others,
        ) == default,
{
}

/// A number within the bounds is given back, and the default is given for every other text.
pub proof fn law_numbers_within_bounds_are_given_back(
    n: i32,
    v: Seq<char>,
    default: i32,
    min: i32,
    max: i32,
)
    ensures
        min <= n <= max ==> whole_number(Some(signed_decimal(n as int)), default, min, max) == n,
        n < min || n > max ==> whole_number(Some(signed_decimal(n as int)), default, min, max)
            == default,
        parsed_i32(v) is None ==> whole_number(Some(v), default, min, max) == default,
        whole_number(None, default, min, max) == default,
{
    law_number_text_round_trip(n);
}

/// What a list of texts says has as many parts as the list, and each part is what the text at its
/// place says.
pub proof fn law_words_of_a_list(list: Seq<&str>, i: int)
    requires
        0 <= i < list.len(),
    ensures
        words(list).len() == list.len(),
        words(list)[i] == list[i]@,
{
}

/// Setting a default stores its value where it is neither empty nor the one that stands in anyway,
/// and takes it out otherwise, as it does where the option is overwritten; the others stay.
pub proof fn law_what_setting_a_default_stores(
    over: Options,
    defaults: Options,
    m: Options,
    k: Seq<char>,
    v: Seq<char>,
    other: Seq<char>,
)
    ensures
        ({
            let after = with_user_default(over, defaults, m, k, v);
            &&& after.contains_key(k) <==> v.len() > 0 && !over.contains_key(k) && !(
            defaults.contains_key(k) && defaults[k] == v)
            &&& after.contains_key(k) ==> after[k] == v
            &&& other != k ==> after.contains_key(other) == m.contains_key(other)
            &&& other != k && m.contains_key(other) ==> after[other] == m[other]
        }),
{
}

/// The options with a meaning of their own have different names.
proof fn lemma_names_of_options_differ()
    ensures
        "view_style"@.len() == 10,
        "custom-fps"@.len() == 10,
        "view_style"@ != "custom-fps"@,
        "scroll_style"@.len() == 12,
        "image_quality"@.len() == 13,
        "trackpad-speed"@.len() == 14,
        "codec-preference"@.len() == 16,
        "custom_image_quality"@.len() == 20,
        "enable-file-copy-paste"@.len() == 22,
        "edge-scroll-edge-thickness"@.len() == 26,
{
    reveal_strlit("view_style");
    reveal_strlit("custom-fps");
    reveal_strlit("scroll_style");
    reveal_strlit("image_quality");
    reveal_strlit("trackpad-speed");
    reveal_strlit("codec-preference");
    reveal_strlit("custom_image_quality");
    reveal_strlit("enable-file-copy-paste");
    reveal_strlit("edge-scroll-edge-thickness");
    assert("view_style"@[0] != "custom-fps"@[0]);
}

/// The allowed values are found in the lists that hold them, and no others are.
proof fn lemma_texts_of_choices(v: Seq<char>)
    ensures
        seq!["original"@].contains(v) <==> v == "original"@,
        seq!["adaptive"@].contains(v) <==> v == "adaptive"@,
        seq!["scrolledge"@, "scrollbar"@].contains(v) <==> v == "scrolledge"@ || v
                == "scrollbar"@,
        seq!["best"@, "balanced"@, "low"@].contains(v) <==> v == "best"@ || v == "balanced"@ || v
                == "low"@,
        seq!["vp8"@, "vp9"@, "av1"@, "h264"@, "h265"@].contains(v) <==> v == "vp8"@ || v
                == "vp9"@ || v == "av1"@ || v == "h264"@ || v == "h265"@,
        seq![""@, "N"@].contains(v) <==> v == ""@ || v == "N"@,
{
    assert(seq!["original"@][0] == "original"@);
    assert(seq!["adaptive"@][0] == "adaptive"@);
    let scroll = seq!["scrolledge"@, "scrollbar"@];
    assert(scroll[0] == "scrolledge"@ && scroll[1] == "scrollbar"@);
    let quality = seq!["best"@, "balanced"@, "low"@];
    assert(quality[0] == "best"@ && quality[1] == "balanced"@ && quality[2] == "low"@);
    let codec = seq!["vp8"@, "vp9"@, "av1"@, "h264"@, "h265"@];
    assert(codec[0] == "vp8"@ && codec[1] == "vp9"@ && codec[2] == "av1"@ && codec[3] == "h264"@
        && codec[4] == "h265"@);
    let copy = seq![""@, "N"@];
    assert(copy[0] == ""@ && copy[1] == "N"@);
}

} // verus!
