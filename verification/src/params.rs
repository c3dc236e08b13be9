//! Parameters of a render job and how they are read from JSON.

use crate::json::{
    error_text, member, parse_value, parsed_text, value_bool, value_get, value_i64, value_str,
    value_tree, JsonTree,
};
use serde_json::Value;
use vstd::prelude::*;
use vstd::string::StringExecFns;

verus! {

/// Why a render job ended without a finished file.
#[derive(Debug)]
pub enum RenderError {
    Cancelled,
    Failed(String),
}

/// What to render, from where, to where, and how.
#[derive(Debug)]
pub struct RenderParams {
    pub in_path: String,
    pub out_path: String,
    pub settings_json: String,
    pub easy: bool,
    /// 0 to 48.
    pub quality: i32,
    /// 0 to 8.
    pub speed: i32,
    pub use444: bool,
    pub interlaced: bool,
    pub trim_start_us: i64,
    /// `i64::MAX` stands for the end of the source.
    pub trim_end_us: i64,
    /// 0 stands for the size of the source.
    pub out_w: i32,
    pub out_h: i32,
    pub effect_enabled: bool,
}

/// What stands under a key that needs text.
#[derive(Debug)]
pub enum TextField {
    Missing,
    NotText,
    Text(String),
}

/// The members of a parameter object, as far as they have the type they need.
#[derive(Debug)]
pub struct RawParams {
    pub in_path: TextField,
    pub out_path: TextField,
    pub settings_json: TextField,
    pub easy: Option<bool>,
    pub quality: Option<i64>,
    pub speed: Option<i64>,
    pub use444: Option<bool>,
    pub interlaced: Option<bool>,
    pub trim_start_us: Option<i64>,
    pub trim_end_us: Option<i64>,
    pub out_w: Option<i64>,
    pub out_h: Option<i64>,
    pub effect_enabled: Option<bool>,
}

/// The low 32 bits of a number, read as a signed number.
pub open spec fn low_i32(n: int) -> int {
    (n + 0x8000_0000) % 0x1_0000_0000 - 0x8000_0000
}

/// Message about a key without a value.
pub open spec fn missing_text(key: Seq<char>) -> Seq<char> {
    "missing '"@ + key + seq!['\'']
}

/// Message about a key whose value is no text.
pub open spec fn bad_text(key: Seq<char>) -> Seq<char> {
    "bad '"@ + key + seq!['\'']
}

/// What stands under a key that needs text, by content.
pub enum TextView {
    Missing,
    NotText,
    Text(Seq<char>),
}

impl View for TextField {
    type V = TextView;

    open spec fn view(&self) -> TextView {
        match *self {
            TextField::Missing => TextView::Missing,
            TextField::NotText => TextView::NotText,
            TextField::Text(s) => TextView::Text(s@),
        }
    }
}

/// The members of a parameter object, by content.
pub struct RawView {
    pub in_path: TextView,
    pub out_path: TextView,
    pub settings_json: TextView,
    pub easy: Option<bool>,
    pub quality: Option<i64>,
    pub speed: Option<i64>,
    pub use444: Option<bool>,
    pub interlaced: Option<bool>,
    pub trim_start_us: Option<i64>,
    pub trim_end_us: Option<i64>,
    pub out_w: Option<i64>,
    pub out_h: Option<i64>,
    pub effect_enabled: Option<bool>,
}

impl View for RawParams {
    type V = RawView;

    open spec fn view(&self) -> RawView {
        RawView {
            in_path: self.in_path@,
            out_path: self.out_path@,
            settings_json: self.settings_json@,
            easy: self.easy,
            quality: self.quality,
            speed: self.speed,
            use444: self.use444,
            interlaced: self.interlaced,
            trim_start_us: self.trim_start_us,
            trim_end_us: self.trim_end_us,
            out_w: self.out_w,
            out_h: self.out_h,
            effect_enabled: self.effect_enabled,
        }
    }
}

/// Render parameters, by content.
pub struct ParamsView {
    pub in_path: Seq<char>,
    pub out_path: Seq<char>,
    pub settings_json: Seq<char>,
    pub easy: bool,
    pub quality: int,
    pub speed: int,
    pub use444: bool,
    pub interlaced: bool,
    pub trim_start_us: int,
    pub trim_end_us: int,
    pub out_w: int,
    pub out_h: int,
    pub effect_enabled: bool,
}

impl View for RenderParams {
    type V = ParamsView;

    open spec fn view(&self) -> ParamsView {
        ParamsView {
            in_path: self.in_path@,
            out_path: self.out_path@,
            settings_json: self.settings_json@,
            easy: self.easy,
            quality: self.quality as int,
            speed: self.speed as int,
            use444: self.use444,
            interlaced: self.interlaced,
            trim_start_us: self.trim_start_us as int,
            trim_end_us: self.trim_end_us as int,
            out_w: self.out_w as int,
            out_h: self.out_h as int,
            effect_enabled: self.effect_enabled,
        }
    }
}

/// The text under a key, or the message about it.
pub open spec fn needed_text(f: TextView, key: Seq<char>) -> Result<Seq<char>, Seq<char>> {
    match f {
        TextView::Missing => Err(missing_text(key)),
        TextView::NotText => Err(bad_text(key)),
        TextView::Text(s) => Ok(s),
    }
}

pub open spec fn or_default<T>(o: Option<T>, default: T) -> T {
    match o {
        Some(v) => v,
        None => default,
    }
}

/// What a parameter object asks for. The three texts are needed, in this order;
/// everything else has a default. Whole numbers are cut to 32 bits where the
/// field is that wide.
pub open spec fn params_of(raw: RawView) -> Result<ParamsView, Seq<char>> {
    match needed_text(raw.in_path, "in_path"@) {
        Err(m) => Err(m),
        Ok(in_path) => match needed_text(raw.out_path, "out_path"@) {
            Err(m) => Err(m),
            Ok(out_path) => match needed_text(raw.settings_json, "settings_json"@) {
                Err(m) => Err(m),
                Ok(settings_json) => Ok(
                    ParamsView {
                        in_path,
                        out_path,
                        settings_json,
                        easy: or_default(raw.easy, false),
                        quality: low_i32(or_default(raw.quality, 27) as int),
                        speed: low_i32(or_default(raw.speed, 5) as int),
                        use444: or_default(raw.use444, false),
                        interlaced: or_default(raw.interlaced, false),
                        trim_start_us: or_default(raw.trim_start_us, 0) as int,
                        trim_end_us: or_default(raw.trim_end_us, i64::MAX) as int,
                        out_w: low_i32(or_default(raw.out_w, 0) as int),
                        out_h: low_i32(or_default(raw.out_h, 0) as int),
                        effect_enabled: or_default(raw.effect_enabled, true),
                    },
                ),
            },
        },
    }
}

/// A result by content.
pub open spec fn params_result(r: Result<RenderParams, String>) -> Result<ParamsView, Seq<char>> {
    match r {
        Ok(p) => Ok(p@),
        Err(m) => Err(m@),
    }
}

fn cut_i32(n: i64) -> (r: i32)
    ensures
        r as int == low_i32(n as int),
{
    assert(#[verifier::truncate] (n as i32) as int == (n + 0x8000_0000) % 0x1_0000_0000
        - 0x8000_0000) by (bit_vector);
    #[verifier::truncate]
    let r: i32 = n as i32;
    r
}

fn need_text(f: TextField, key: &str) -> (r: Result<String, String>)
    ensures
        r is Ok ==> needed_text(f@, key@) == Ok::<Seq<char>, Seq<char>>(r->Ok_0@),
        r is Err ==> needed_text(f@, key@) == Err::<Seq<char>, Seq<char>>(r->Err_0@),
{
    match f {
        TextField::Missing => {
            let mut m: String = String::new();
            m.append("missing '");
            m.append(key);
            m.push('\'');
            assert(m@ =~= missing_text(key@));
            Err(m)
        },
        TextField::NotText => {
            let mut m: String = String::new();
            m.append("bad '");
            m.append(key);
            m.push('\'');
            assert(m@ =~= bad_text(key@));
            Err(m)
        },
        TextField::Text(s) => Ok(s),
    }
}

/// Turns the members of a parameter object into parameters.
pub fn render_params_from_raw(raw: RawParams) -> (r: Result<RenderParams, String>)
    ensures
        params_result(r) == params_of(raw@),
{
    let in_path: String = match need_text(raw.in_path, "in_path") {
        Ok(s) => s,
        Err(m) => return Err(m),
    };
    let out_path: String = match need_text(raw.out_path, "out_path") {
        Ok(s) => s,
        Err(m) => return Err(m),
    };
    let settings_json: String = match need_text(raw.settings_json, "settings_json") {
        Ok(s) => s,
        Err(m) => return Err(m),
    };
    Ok(
        RenderParams {
            in_path,
            out_path,
            settings_json,
            easy: raw.easy.unwrap_or(false),
            quality: cut_i32(raw.quality.unwrap_or(27)),
            speed: cut_i32(raw.speed.unwrap_or(5)),
            use444: raw.use444.unwrap_or(false),
            interlaced: raw.interlaced.unwrap_or(false),
            trim_start_us: raw.trim_start_us.unwrap_or(0),
            trim_end_us: raw.trim_end_us.unwrap_or(i64::MAX),
            out_w: cut_i32(raw.out_w.unwrap_or(0)),
            out_h: cut_i32(raw.out_h.unwrap_or(0)),
            effect_enabled: raw.effect_enabled.unwrap_or(true),
        },
    )
}

/// The text member of a JSON value.
pub open spec fn text_member(t: JsonTree, key: Seq<char>) -> TextView {
    match member(t, key) {
        None => TextView::Missing,
        Some(JsonTree::Text(s)) => TextView::Text(s),
        Some(_) => TextView::NotText,
    }
}

/// The boolean member of a JSON value.
pub open spec fn bool_member(t: JsonTree, key: Seq<char>) -> Option<bool> {
    match member(t, key) {
        Some(JsonTree::Bool(b)) => Some(b),
        _ => None,
    }
}

/// The whole-number member of a JSON value.
pub open spec fn int_member(t: JsonTree, key: Seq<char>) -> Option<i64> {
    match member(t, key) {
        Some(JsonTree::Int(n)) => Some(n),
        _ => None,
    }
}

/// The members of a JSON value that make up render parameters.
pub open spec fn raw_of(t: JsonTree) -> RawView {
    RawView {
        in_path: text_member(t, "in_path"@),
        out_path: text_member(t, "out_path"@),
        settings_json: text_member(t, "settings_json"@),
        easy: bool_member(t, "easy"@),
        quality: int_member(t, "quality"@),
        speed: int_member(t, "speed"@),
        use444: bool_member(t, "use444"@),
        interlaced: bool_member(t, "interlaced"@),
        trim_start_us: int_member(t, "trim_start_us"@),
        trim_end_us: int_member(t, "trim_end_us"@),
        out_w: int_member(t, "out_w"@),
        out_h: int_member(t, "out_h"@),
        effect_enabled: bool_member(t, "effect_enabled"@),
    }
}

fn read_text(v: &Value, key: &str) -> (f: TextField)
    ensures
        f@ == text_member(value_tree(*v), key@),
{
    match value_get(v, key) {
        None => TextField::Missing,
        Some(x) => match value_str(x) {
            None => TextField::NotText,
            Some(s) => TextField::Text(s.to_owned()),
        },
    }
}

fn read_bool(v: &Value, key: &str) -> (b: Option<bool>)
    ensures
        b == bool_member(value_tree(*v), key@),
{
    match value_get(v, key) {
        None => None,
        Some(x) => value_bool(x),
    }
}

fn read_int(v: &Value, key: &str) -> (n: Option<i64>)
    ensures
        n == int_member(value_tree(*v), key@),
{
    match value_get(v, key) {
        None => None,
        Some(x) => value_i64(x),
    }
}

/// Picks the members of a JSON value that make up render parameters.
pub fn read_raw_params(v: &Value) -> (raw: RawParams)
    ensures
        raw@ == raw_of(value_tree(*v)),
{
    RawParams {
        in_path: read_text(v, "in_path"),
        out_path: read_text(v, "out_path"),
        settings_json: read_text(v, "settings_json"),
        easy: read_bool(v, "easy"),
        quality: read_int(v, "quality"),
        speed: read_int(v, "speed"),
        use444: read_bool(v, "use444"),
        interlaced: read_bool(v, "interlaced"),
        trim_start_us: read_int(v, "trim_start_us"),
        trim_end_us: read_int(v, "trim_end_us"),
        out_w: read_int(v, "out_w"),
        out_h: read_int(v, "out_h"),
        effect_enabled: read_bool(v, "effect_enabled"),
    }
}

/// Reads render parameters out of a JSON value.
pub fn render_params_from_json(v: &Value) -> (r: Result<RenderParams, String>)
    ensures
        params_result(r) == params_of(raw_of(value_tree(*v))),
{
    render_params_from_raw(read_raw_params(v))
}

/// Reads render parameters out of JSON text.
pub fn parse_render_params(json: &str) -> (r: Result<RenderParams, String>)
    ensures
        params_result(r) == (match parsed_text(json@) {
            Ok(t) => params_of(raw_of(t)),
            Err(m) => Err(m),
        }),
{
    match parse_value(json) {
        Ok(v) => render_params_from_json(&v),
        Err(e) => Err(error_text(&e)),
    }
}

/// A parameter object with nothing but the three texts gets every default.
pub proof fn law_defaults(t: JsonTree, in_path: Seq<char>, out_path: Seq<char>, settings: Seq<char>)
    requires
        text_member(t, "in_path"@) == TextView::Text(in_path),
        text_member(t, "out_path"@) == TextView::Text(out_path),
        text_member(t, "settings_json"@) == TextView::Text(settings),
        forall|key: Seq<char>|
            key != "in_path"@ && key != "out_path"@ && key != "settings_json"@
                ==> #[trigger] member(
                t,
                key,
            ) is None,
    ensures
        params_of(raw_of(t)) == Ok::<ParamsView, Seq<char>>(
            ParamsView {
                in_path,
                out_path,
                settings_json: settings,
                easy: false,
                quality: 27,
                speed: 5,
                use444: false,
                interlaced: false,
                trim_start_us: 0,
                trim_end_us: i64::MAX as int,
                out_w: 0,
                out_h: 0,
                effect_enabled: true,
            },
        ),
{
    reveal_strlit("in_path");
    reveal_strlit("out_path");
    reveal_strlit("settings_json");
    reveal_strlit("easy");
    reveal_strlit("quality");
    reveal_strlit("speed");
    reveal_strlit("use444");
    reveal_strlit("interlaced");
    reveal_strlit("trim_start_us");
    reveal_strlit("trim_end_us");
    reveal_strlit("out_w");
    reveal_strlit("out_h");
    reveal_strlit("effect_enabled");
}

/// Each parameter comes from the member of its own name where that has the type
/// needed, and is the default otherwise. Numbers of 32 bits keep the low bits.
pub proof fn law_params_follow_members(
    t: JsonTree,
    in_path: Seq<char>,
    out_path: Seq<char>,
    settings: Seq<char>,
)
    requires
        member(t, "in_path"@) == Some(JsonTree::Text(in_path)),
        member(t, "out_path"@) == Some(JsonTree::Text(out_path)),
        member(t, "settings_json"@) == Some(JsonTree::Text(settings)),
    ensures
        params_of(raw_of(t)) is Ok,
        ({
            let p = params_of(raw_of(t))->Ok_0;
            &&& p.in_path == in_path
            &&& p.out_path == out_path
            &&& p.settings_json == settings
            &&& p.easy == (match member(t, "easy"@) {
                Some(JsonTree::Bool(b)) => b,
                _ => false,
            })
            &&& p.use444 == (match member(t, "use444"@) {
                Some(JsonTree::Bool(b)) => b,
                _ => false,
            })
            &&& p.interlaced == (match member(t, "interlaced"@) {
                Some(JsonTree::Bool(b)) => b,
                _ => false,
            })
            &&& p.effect_enabled == (match member(t, "effect_enabled"@) {
                Some(JsonTree::Bool(b)) => b,
                _ => true,
            })
            &&& match member(t, "quality"@) {
                Some(JsonTree::Int(n)) => (p.quality - n) % 0x1_0000_0000 == 0,
                _ => p.quality == 27,
            }
            &&& -0x8000_0000 <= p.quality < 0x8000_0000
            &&& match member(t, "speed"@) {
                Some(JsonTree::Int(n)) => (p.speed - n) % 0x1_0000_0000 == 0,
                _ => p.speed == 5,
            }
            &&& -0x8000_0000 <= p.speed < 0x8000_0000
            &&& match member(t, "out_w"@) {
                Some(JsonTree::Int(n)) => (p.out_w - n) % 0x1_0000_0000 == 0,
                _ => p.out_w == 0,
            }
            &&& -0x8000_0000 <= p.out_w < 0x8000_0000
            &&& match member(t, "out_h"@) {
                Some(JsonTree::Int(n)) => (p.out_h - n) % 0x1_0000_0000 == 0,
                _ => p.out_h == 0,
            }
            &&& -0x8000_0000 <= p.out_h < 0x8000_0000
            &&& p.trim_start_us == (match member(t, "trim_start_us"@) {
                Some(JsonTree::Int(n)) => n as int,
                _ => 0,
            })
            &&& p.trim_end_us == (match member(t, "trim_end_us"@) {
                Some(JsonTree::Int(n)) => n as int,
                _ => 0x7fff_ffff_ffff_ffff,
            })
        }),
{
}

/// The same over the members as they were read: each parameter comes from the
/// member of its own name.
pub proof fn law_params_follow_raw(
    raw: RawView,
    in_path: Seq<char>,
    out_path: Seq<char>,
    settings: Seq<char>,
)
    requires
        raw.in_path == TextView::Text(in_path),
        raw.out_path == TextView::Text(out_path),
        raw.settings_json == TextView::Text(settings),
    ensures
        params_of(raw) is Ok,
        ({
            let p = params_of(raw)->Ok_0;
            &&& p.in_path == in_path
            &&& p.out_path == out_path
            &&& p.settings_json == settings
            &&& p.easy == (if raw.easy is Some { raw.easy->0 } else { false })
            &&& p.use444 == (if raw.use444 is Some { raw.use444->0 } else { false })
            &&& p.interlaced == (if raw.interlaced is Some { raw.interlaced->0 } else { false })
            &&& p.effect_enabled
                == (if raw.effect_enabled is Some { raw.effect_enabled->0 } else { true })
            &&& raw.quality is None ==> p.quality == 27
            &&& raw.quality is Some ==> (p.quality - raw.quality->0) % 0x1_0000_0000 == 0
            &&& -0x8000_0000 <= p.quality < 0x8000_0000
            &&& raw.speed is None ==> p.speed == 5
            &&& raw.speed is Some ==> (p.speed - raw.speed->0) % 0x1_0000_0000 == 0
            &&& -0x8000_0000 <= p.speed < 0x8000_0000
            &&& raw.out_w is None ==> p.out_w == 0
            &&& raw.out_w is Some ==> (p.out_w - raw.out_w->0) % 0x1_0000_0000 == 0
            &&& -0x8000_0000 <= p.out_w < 0x8000_0000
            &&& raw.out_h is None ==> p.out_h == 0
            &&& raw.out_h is Some ==> (p.out_h - raw.out_h->0) % 0x1_0000_0000 == 0
            &&& -0x8000_0000 <= p.out_h < 0x8000_0000
            &&& p.trim_start_us
                == (if raw.trim_start_us is Some { raw.trim_start_us->0 as int } else { 0 })
            &&& p.trim_end_us
                == (if raw.trim_end_us is Some {
                    raw.trim_end_us->0 as int
                } else {
                    0x7fff_ffff_ffff_ffff
                })
        }),
{
}

/// A parameter depends on no member but its own: two objects that agree on the
/// member of a name agree on the parameter.
pub proof fn law_params_are_independent(t: JsonTree, other: JsonTree)
    requires
        params_of(raw_of(t)) is Ok,
        params_of(raw_of(other)) is Ok,
    ensures
        member(t, "in_path"@) == member(other, "in_path"@) ==> params_of(raw_of(t))->Ok_0.in_path
            == params_of(raw_of(other))->Ok_0.in_path,
        member(t, "out_path"@) == member(other, "out_path"@) ==> params_of(raw_of(t))->Ok_0.out_path
            == params_of(raw_of(other))->Ok_0.out_path,
        member(t, "settings_json"@) == member(other, "settings_json"@) ==> params_of(
            raw_of(t),
        )->Ok_0.settings_json == params_of(raw_of(other))->Ok_0.settings_json,
        member(t, "easy"@) == member(other, "easy"@)
            ==> params_of(raw_of(t))->Ok_0.easy == params_of(
            raw_of(other),
        )->Ok_0.easy,
        member(t, "use444"@) == member(other, "use444"@)
            ==> params_of(raw_of(t))->Ok_0.use444 == params_of(
            raw_of(other),
        )->Ok_0.use444,
        member(t, "interlaced"@) == member(other, "interlaced"@)
            ==> params_of(raw_of(t))->Ok_0.interlaced == params_of(
            raw_of(other),
        )->Ok_0.interlaced,
        member(t, "effect_enabled"@) == member(other, "effect_enabled"@)
            ==> params_of(raw_of(t))->Ok_0.effect_enabled == params_of(
            raw_of(other),
        )->Ok_0.effect_enabled,
        member(t, "quality"@) == member(other, "quality"@)
            ==> params_of(raw_of(t))->Ok_0.quality == params_of(
            raw_of(other),
        )->Ok_0.quality,
        member(t, "speed"@) == member(other, "speed"@)
            ==> params_of(raw_of(t))->Ok_0.speed == params_of(
            raw_of(other),
        )->Ok_0.speed,
        member(t, "out_w"@) == member(other, "out_w"@)
            ==> params_of(raw_of(t))->Ok_0.out_w == params_of(
            raw_of(other),
        )->Ok_0.out_w,
        member(t, "out_h"@) == member(other, "out_h"@)
            ==> params_of(raw_of(t))->Ok_0.out_h == params_of(
            raw_of(other),
        )->Ok_0.out_h,
        member(t, "trim_start_us"@) == member(other, "trim_start_us"@)
            ==> params_of(raw_of(t))->Ok_0.trim_start_us == params_of(
            raw_of(other),
        )->Ok_0.trim_start_us,
        member(t, "trim_end_us"@) == member(other, "trim_end_us"@)
            ==> params_of(raw_of(t))->Ok_0.trim_end_us == params_of(
            raw_of(other),
        )->Ok_0.trim_end_us,
{
}

/// Which objects are refused, and with which message: the first of the three needed
/// texts that is missing or no text is named.
pub proof fn law_params_refused(t: JsonTree)
    ensures
        member(t, "in_path"@) is None ==> params_of(raw_of(t)) == Err::<ParamsView, Seq<char>>(
            "missing 'in_path'"@,
        ),
        member(t, "in_path"@) is Some && !(member(t, "in_path"@)->0 is Text) ==> params_of(
            raw_of(t),
        ) == Err::<ParamsView, Seq<char>>("bad 'in_path'"@),
        member(t, "in_path"@) is Some && member(t, "in_path"@)->0 is Text ==> {
            &&& member(t, "out_path"@) is None ==> params_of(raw_of(t)) == Err::<
                ParamsView,
                Seq<char>,
            >("missing 'out_path'"@)
            &&& member(t, "out_path"@) is Some && !(member(t, "out_path"@)->0 is Text)
                ==> params_of(raw_of(t)) == Err::<ParamsView, Seq<char>>("bad 'out_path'"@)
            &&& member(t, "out_path"@) is Some && member(t, "out_path"@)->0 is Text ==> {
                &&& member(t, "settings_json"@) is None ==> params_of(raw_of(t)) == Err::<
                    ParamsView,
                    Seq<char>,
                >("missing 'settings_json'"@)
                &&& member(t, "settings_json"@) is Some && !(member(t, "settings_json"@)->0 is Text)
                    ==> params_of(raw_of(t)) == Err::<ParamsView, Seq<char>>(
                    "bad 'settings_json'"@,
                )
            }
        },
{
    reveal_strlit("missing '");
    reveal_strlit("bad '");
    reveal_strlit("in_path");
    reveal_strlit("out_path");
    reveal_strlit("settings_json");
    reveal_strlit("missing 'in_path'");
    reveal_strlit("bad 'in_path'");
    reveal_strlit("missing 'out_path'");
    reveal_strlit("bad 'out_path'");
    reveal_strlit("missing 'settings_json'");
    reveal_strlit("bad 'settings_json'");
    assert(missing_text("in_path"@) =~= "missing 'in_path'"@);
    assert(bad_text("in_path"@) =~= "bad 'in_path'"@);
    assert(missing_text("out_path"@) =~= "missing 'out_path'"@);
    assert(bad_text("out_path"@) =~= "bad 'out_path'"@);
    assert(missing_text("settings_json"@) =~= "missing 'settings_json'"@);
    assert(bad_text("settings_json"@) =~= "bad 'settings_json'"@);
}

/// What reading parameters returns: what the members as they were read ask for.
pub proof fn law_params_calls(
    raw: RawParams,
    v: &Value,
    json: &str,
    a: Result<RenderParams, String>,
    read: RawParams,
    b: Result<RenderParams, String>,
    c: Result<RenderParams, String>,
)
    requires
        call_ensures(render_params_from_raw, (raw,), a),
        call_ensures(read_raw_params, (v,), read),
        call_ensures(render_params_from_json, (v,), b),
        call_ensures(parse_render_params, (json,), c),
    ensures
        params_result(a) == params_of(raw@),
        read@ == raw_of(value_tree(*v)),
        params_result(b) == params_of(raw_of(value_tree(*v))),
        parsed_text(json@) matches Ok(t) ==> params_result(c) == params_of(raw_of(t)),
        parsed_text(json@) matches Err(m) ==> c is Err && c->Err_0@ == m,
{
}

} // verus!
