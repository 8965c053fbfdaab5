//! Messaging channel configuration (Slack, Discord, Telegram, webhooks), read
//! from the small YAML dialect of `.tachy/channels.yaml`:
//!
//! ```yaml
//! channels:
//!   - type: slack
//!     bot_token: $SLACK_BOT_TOKEN
//!     channel: "#ai-agent"
//!   - type: telegram
//!     allowed_users:
//!       - "username1"
//! ```
//!
//! Each `- type:` line opens a channel; `key: value` lines set its fields,
//! `true`/`false` read as flags; `allowed_users:` opens a list of `- item`
//! lines. A channel whose fields do not have the expected kinds (a flag where
//! text is expected, an unknown type) is dropped.
use vstd::prelude::*;
use vstd::string::*;
use vstd::utf8::*;
use crate::httputil::{find_char, is_whitespace, is_ws};
use crate::text::{chars_of, owned, str_eq, string_from_chars, views};

verus! {

/// The messaging platform of a channel.
#[derive(Debug, Clone, Copy, PartialEq, Eq, Structural)]
pub enum ChannelType {
    Slack,
    Discord,
    Telegram,
    Webhook,
}

/// One configured channel.
#[derive(Debug, Clone)]
pub struct ChannelConfig {
    pub kind: ChannelType,
    pub bot_token: String,
    pub app_token: String,
    pub channel: String,
    pub channel_id: String,
    pub template: String,
    pub model: String,
    pub allowed_users: Vec<String>,
    pub enabled: bool,
}

pub struct ChannelConfigView {
    pub kind: ChannelType,
    pub bot_token: Seq<char>,
    pub app_token: Seq<char>,
    pub channel: Seq<char>,
    pub channel_id: Seq<char>,
    pub template: Seq<char>,
    pub model: Seq<char>,
    pub allowed_users: Seq<Seq<char>>,
    pub enabled: bool,
}

impl View for ChannelConfig {
    type V = ChannelConfigView;

    open spec fn view(&self) -> ChannelConfigView {
        ChannelConfigView {
            kind: self.kind,
            bot_token: self.bot_token@,
            app_token: self.app_token@,
            channel: self.channel@,
            channel_id: self.channel_id@,
            template: self.template@,
            model: self.model@,
            allowed_users: views(self.allowed_users@),
            enabled: self.enabled,
        }
    }
}

/// The whole configuration file.
#[derive(Debug, Clone)]
pub struct ChannelsFile {
    pub channels: Vec<ChannelConfig>,
}

pub open spec fn config_views(v: Seq<ChannelConfig>) -> Seq<ChannelConfigView> {
    v.map_values(|c: ChannelConfig| c@)
}

// ---------------------------------------------------------------------------
// Text helpers: lines, trimming.

/// `c` is stripped: whitespace when `ws`, else the character `m`.
pub open spec fn is_mark(c: char, ws: bool, m: char) -> bool {
    if ws {
        is_ws(c)
    } else {
        c == m
    }
}

/// How many leading characters are stripped.
pub open spec fn lead(s: Seq<char>, ws: bool, m: char) -> nat
    decreases s.len(),
{
    if s.len() > 0 && is_mark(s[0], ws, m) {
        1 + lead(s.drop_first(), ws, m)
    } else {
        0
    }
}

/// How many trailing characters are stripped.
pub open spec fn trail(s: Seq<char>, ws: bool, m: char) -> nat
    decreases s.len(),
{
    if s.len() > 0 && is_mark(s.last(), ws, m) {
        1 + trail(s.drop_last(), ws, m)
    } else {
        0
    }
}

proof fn lemma_lead(s: Seq<char>, ws: bool, m: char)
    ensures
        lead(s, ws, m) <= s.len(),
    decreases s.len(),
{
    if s.len() > 0 && is_mark(s[0], ws, m) {
        lemma_lead(s.drop_first(), ws, m);
    }
}

proof fn lemma_trail(s: Seq<char>, ws: bool, m: char)
    ensures
        trail(s, ws, m) <= s.len(),
    decreases s.len(),
{
    if s.len() > 0 && is_mark(s.last(), ws, m) {
        lemma_trail(s.drop_last(), ws, m);
    }
}

/// `s` with its leading and trailing marks removed, as `str::trim` (for
/// whitespace) and `str::trim_matches(m)` do.
pub open spec fn strip(s: Seq<char>, ws: bool, m: char) -> Seq<char> {
    let t = s.skip(lead(s, ws, m) as int);
    t.take(t.len() - trail(t, ws, m))
}

pub open spec fn trim(s: Seq<char>) -> Seq<char> {
    strip(s, true, ' ')
}

/// `s` without any number of leading `"- "`, as `trim_start_matches("- ")`.
pub open spec fn drop_dashes(s: Seq<char>) -> Seq<char>
    decreases s.len(),
{
    if s.len() >= 2 && s[0] == '-' && s[1] == ' ' {
        drop_dashes(s.skip(2))
    } else {
        s
    }
}

/// The lines of a text, as `str::lines` yields them: split at `\n`, a `\r`
/// before the `\n` removed, no final empty line.
pub open spec fn lines_of(s: Seq<char>) -> Seq<Seq<char>>
    decreases s.len(),
{
    if s.len() == 0 {
        Seq::empty()
    } else {
        match find_char(s, '\n') {
            None => seq![s],
            Some(i) => {
                proof {
                    lemma_find_char(s, '\n');
                }
                let line = if i > 0 && s[i - 1] == '\r' {
                    s.take(i - 1)
                } else {
                    s.take(i)
                };
                seq![line] + lines_of(s.skip(i + 1))
            },
        }
    }
}

pub proof fn lemma_find_char(s: Seq<char>, c: char)
    ensures
        find_char(s, c) matches Some(i) ==> 0 <= i < s.len() && s[i] == c && forall|k: int|
            0 <= k < i ==> s[k] != c,
        find_char(s, c) is None ==> forall|k: int| 0 <= k < s.len() ==> s[k] != c,
    decreases s.len(),
{
    if s.len() > 0 && s[0] != c {
        lemma_find_char(s.drop_first(), c);
        assert forall|k: int| 1 <= k < s.len() implies s[k] == s.drop_first()[k - 1] by {}
    }
}

/// A copy of `v[a..b]`.
pub(crate) fn slice(v: &Vec<char>, a: usize, b: usize) -> (r: Vec<char>)
    requires
        a <= b <= v@.len(),
    ensures
        r@ == v@.subrange(a as int, b as int),
{
    let mut r: Vec<char> = Vec::new();
    let mut k = a;
    while k < b
        invariant
            a <= k <= b <= v@.len(),
            r@ == v@.subrange(a as int, k as int),
        decreases b - k,
    {
        r.push(v[k]);
        assert(r@ =~= v@.subrange(a as int, k + 1));
        k = k + 1;
    }
    r
}

fn mark(c: char, ws: bool, m: char) -> (b: bool)
    ensures
        b == is_mark(c, ws, m),
{
    if ws {
        is_whitespace(c)
    } else {
        c == m
    }
}

/// `strip` on a character vector.
pub(crate) fn strip_chars(v: &Vec<char>, ws: bool, m: char) -> (r: Vec<char>)
    ensures
        r@ == strip(v@, ws, m),
{
    let n = v.len();
    let mut i: usize = 0;
    assert(v@.skip(0) =~= v@);
    while i < n && mark(v[i], ws, m)
        invariant
            n == v@.len(),
            i <= n,
            lead(v@, ws, m) == i + lead(v@.skip(i as int), ws, m),
        decreases n - i,
    {
        assert(v@.skip(i as int).drop_first() =~= v@.skip(i + 1));
        i = i + 1;
    }
    let ghost t = v@.skip(i as int);
    assert(lead(t, ws, m) == 0);
    let mut j: usize = n;
    assert(t.take(n - i) =~= t);
    while j > i && mark(v[j - 1], ws, m)
        invariant
            n == v@.len(),
            i <= j <= n,
            t == v@.skip(i as int),
            trail(t, ws, m) == (n - j) + trail(t.take(j - i), ws, m),
        decreases j,
    {
        assert(t.take(j - i).drop_last() =~= t.take(j - 1 - i));
        assert(t.take(j - i).last() == v@[j - 1]);
        j = j - 1;
    }
    proof {
        assert(trail(t.take(j - i), ws, m) == 0);
        assert(t.take(t.len() - trail(t, ws, m)) =~= v@.subrange(i as int, j as int));
    }
    slice(v, i, j)
}

/// `drop_dashes` on a character vector.
pub(crate) fn drop_dash_prefixes(v: Vec<char>) -> (r: Vec<char>)
    ensures
        r@ == drop_dashes(v@),
{
    let n = v.len();
    let mut i: usize = 0;
    assert(v@.skip(0) =~= v@);
    while i < n && n - i >= 2 && v[i] == '-' && v[i + 1] == ' '
        invariant
            n == v@.len(),
            i <= n,
            drop_dashes(v@) == drop_dashes(v@.skip(i as int)),
        decreases n - i,
    {
        assert(v@.skip(i as int).skip(2) =~= v@.skip(i + 2));
        i = i + 2;
    }
    assert(drop_dashes(v@.skip(i as int)) == v@.skip(i as int));
    assert(v@.skip(i as int) =~= v@.subrange(i as int, n as int));
    slice(&v, i, n)
}

/// `s` begins with `p`.
pub open spec fn starts(s: Seq<char>, p: Seq<char>) -> bool {
    p.len() <= s.len() && s.take(p.len() as int) == p
}

pub(crate) fn starts_with(v: &Vec<char>, p: &str) -> (b: bool)
    ensures
        b == starts(v@, p@),
{
    let pc = chars_of(p);
    if pc.len() > v.len() {
        return false;
    }
    let mut k: usize = 0;
    while k < pc.len()
        invariant
            pc@ == p@,
            pc@.len() <= v@.len(),
            k <= pc@.len(),
            forall|q: int| 0 <= q < k ==> v@[q] == pc@[q],
        decreases pc@.len() - k,
    {
        if v[k] != pc[k] {
            assert(v@.take(pc@.len() as int)[k as int] != pc@[k as int]);
            return false;
        }
        k = k + 1;
    }
    assert(v@.take(pc@.len() as int) =~= pc@);
    true
}

pub(crate) fn equals(v: &Vec<char>, p: &str) -> (b: bool)
    ensures
        b == (v@ == p@),
{
    let s = string_from_chars(slice(v, 0, v.len()));
    proof {
        assert(v@.subrange(0, v@.len() as int) =~= v@);
    }
    str_eq(s.as_str(), p)
}

// ---------------------------------------------------------------------------
// Channel records.

/// A field's value as written: text, a flag, or a list of items.
#[derive(Debug, Clone)]
pub enum RawValue {
    Text(String),
    Flag(bool),
    Items(Vec<String>),
}

pub enum RawView {
    Text(Seq<char>),
    Flag(bool),
    Items(Seq<Seq<char>>),
}

impl View for RawValue {
    type V = RawView;

    open spec fn view(&self) -> RawView {
        match self {
            RawValue::Text(s) => RawView::Text(s@),
            RawValue::Flag(b) => RawView::Flag(*b),
            RawValue::Items(v) => RawView::Items(views(v@)),
        }
    }
}

pub open spec fn opt_raw(o: Option<RawValue>) -> Option<RawView> {
    match o {
        Some(v) => Some(v@),
        None => None,
    }
}

/// The fields of the channel being read, by key; keys that no channel has
/// are not kept.
#[derive(Debug)]
pub struct ChannelDraft {
    pub kind: Option<RawValue>,
    pub bot_token: Option<RawValue>,
    pub app_token: Option<RawValue>,
    pub channel: Option<RawValue>,
    pub channel_id: Option<RawValue>,
    pub template: Option<RawValue>,
    pub model: Option<RawValue>,
    pub allowed_users: Option<RawValue>,
    pub enabled: Option<RawValue>,
}

pub struct DraftView {
    pub kind: Option<RawView>,
    pub bot_token: Option<RawView>,
    pub app_token: Option<RawView>,
    pub channel: Option<RawView>,
    pub channel_id: Option<RawView>,
    pub template: Option<RawView>,
    pub model: Option<RawView>,
    pub allowed_users: Option<RawView>,
    pub enabled: Option<RawView>,
}

impl View for ChannelDraft {
    type V = DraftView;

    open spec fn view(&self) -> DraftView {
        DraftView {
            kind: opt_raw(self.kind),
            bot_token: opt_raw(self.bot_token),
            app_token: opt_raw(self.app_token),
            channel: opt_raw(self.channel),
            channel_id: opt_raw(self.channel_id),
            template: opt_raw(self.template),
            model: opt_raw(self.model),
            allowed_users: opt_raw(self.allowed_users),
            enabled: opt_raw(self.enabled),
        }
    }
}

/// A new channel of the given type, enabled.
pub open spec fn new_draft(kind: Seq<char>) -> DraftView {
    DraftView {
        kind: Some(RawView::Text(kind)),
        bot_token: None,
        app_token: None,
        channel: None,
        channel_id: None,
        template: None,
        model: None,
        allowed_users: None,
        enabled: Some(RawView::Flag(true)),
    }
}

/// The draft with field `key` set; other keys leave it unchanged.
pub open spec fn set_field(d: DraftView, key: Seq<char>, v: RawView) -> DraftView {
    if key == "type"@ {
        DraftView { kind: Some(v), ..d }
    } else if key == "bot_token"@ {
        DraftView { bot_token: Some(v), ..d }
    } else if key == "app_token"@ {
        DraftView { app_token: Some(v), ..d }
    } else if key == "channel"@ {
        DraftView { channel: Some(v), ..d }
    } else if key == "channel_id"@ {
        DraftView { channel_id: Some(v), ..d }
    } else if key == "template"@ {
        DraftView { template: Some(v), ..d }
    } else if key == "model"@ {
        DraftView { model: Some(v), ..d }
    } else if key == "allowed_users"@ {
        DraftView { allowed_users: Some(v), ..d }
    } else if key == "enabled"@ {
        DraftView { enabled: Some(v), ..d }
    } else {
        d
    }
}

/// A value as read: `true` and `false` are flags, anything else is text.
pub open spec fn raw_of(val: Seq<char>) -> RawView {
    if val == "true"@ {
        RawView::Flag(true)
    } else if val == "false"@ {
        RawView::Flag(false)
    } else {
        RawView::Text(val)
    }
}

/// The channel type a name stands for (lowercase names only).
pub open spec fn channel_type_of(v: Option<RawView>) -> Option<ChannelType> {
    match v {
        Some(RawView::Text(s)) => if s == "slack"@ {
            Some(ChannelType::Slack)
        } else if s == "discord"@ {
            Some(ChannelType::Discord)
        } else if s == "telegram"@ {
            Some(ChannelType::Telegram)
        } else if s == "webhook"@ {
            Some(ChannelType::Webhook)
        } else {
            None
        },
        _ => None,
    }
}

/// A text field: empty when absent; a flag or a list there is an error.
pub open spec fn text_field(v: Option<RawView>) -> Option<Seq<char>> {
    match v {
        None => Some(Seq::empty()),
        Some(RawView::Text(s)) => Some(s),
        _ => None,
    }
}

/// A list field: empty when absent; text or a flag there is an error.
pub open spec fn list_field(v: Option<RawView>) -> Option<Seq<Seq<char>>> {
    match v {
        None => Some(Seq::empty()),
        Some(RawView::Items(s)) => Some(s),
        _ => None,
    }
}

/// A flag field: false when absent; text or a list there is an error.
pub open spec fn flag_field(v: Option<RawView>) -> Option<bool> {
    match v {
        None => Some(false),
        Some(RawView::Flag(b)) => Some(b),
        _ => None,
    }
}

/// The channel a draft describes, when every field has the expected kind.
pub open spec fn to_config(d: DraftView) -> Option<ChannelConfigView> {
    if channel_type_of(d.kind) is Some && text_field(d.bot_token) is Some && text_field(
        d.app_token,
    ) is Some && text_field(d.channel) is Some && text_field(d.channel_id) is Some && text_field(
        d.template,
    ) is Some && text_field(d.model) is Some && list_field(d.allowed_users) is Some && flag_field(
        d.enabled,
    ) is Some {
        Some(
            ChannelConfigView {
                kind: channel_type_of(d.kind)->0,
                bot_token: text_field(d.bot_token)->0,
                app_token: text_field(d.app_token)->0,
                channel: text_field(d.channel)->0,
                channel_id: text_field(d.channel_id)->0,
                template: text_field(d.template)->0,
                model: text_field(d.model)->0,
                allowed_users: list_field(d.allowed_users)->0,
                enabled: flag_field(d.enabled)->0,
            },
        )
    } else {
        None
    }
}

/// The reader's state between lines.
pub struct ParseView {
    /// The channels read so far.
    pub done: Seq<ChannelConfigView>,
    /// The channel being read.
    pub current: Option<DraftView>,
    /// Its `allowed_users` list, once opened.
    pub users: Option<Seq<Seq<char>>>,
    /// Whether `- item` lines add to that list.
    pub in_users: bool,
}

pub open spec fn initial() -> ParseView {
    ParseView { done: Seq::empty(), current: None, users: None, in_users: false }
}

/// The channels read, with the current one closed.
pub open spec fn flush(st: ParseView) -> Seq<ChannelConfigView> {
    match st.current {
        None => st.done,
        Some(d) => {
            let d2 = match st.users {
                Some(u) => DraftView { allowed_users: Some(RawView::Items(u)), ..d },
                None => d,
            };
            match to_config(d2) {
                Some(c) => st.done.push(c),
                None => st.done,
            }
        },
    }
}

/// The reader's state after one more line.
pub open spec fn step(st: ParseView, line: Seq<char>) -> ParseView {
    let t = trim(line);
    if t.len() == 0 || t[0] == '#' || t == "channels:"@ {
        st
    } else if starts(t, "- type:"@) {
        ParseView {
            done: flush(st),
            current: Some(new_draft(strip(trim(t.skip(7)), false, '"'))),
            users: None,
            in_users: false,
        }
    } else if st.current is None {
        st
    } else if t == "allowed_users:"@ {
        ParseView { users: Some(Seq::empty()), in_users: true, ..st }
    } else if st.in_users && starts(t, "- "@) {
        match st.users {
            Some(u) => ParseView { users: Some(u.push(strip(trim(t.skip(2)), false, '"'))), ..st },
            None => st,
        }
    } else {
        let st2 = ParseView { in_users: false, ..st };
        match find_char(t, ':') {
            None => st2,
            Some(c) => {
                let key = drop_dashes(trim(t.take(c)));
                let val = strip(strip(trim(t.skip(c + 1)), false, '"'), false, '\'');
                if key.len() > 0 && val.len() > 0 {
                    ParseView { current: Some(set_field(st2.current->0, key, raw_of(val))), ..st2 }
                } else {
                    st2
                }
            },
        }
    }
}

/// The state after a sequence of lines.
pub open spec fn run(lines: Seq<Seq<char>>) -> ParseView
    decreases lines.len(),
{
    if lines.len() == 0 {
        initial()
    } else {
        step(run(lines.drop_last()), lines.last())
    }
}

/// The channels a configuration text describes.
pub open spec fn channels_of(text: Seq<char>) -> Seq<ChannelConfigView> {
    flush(run(lines_of(text)))
}

// ---------------------------------------------------------------------------
// The reader.

proof fn lemma_find_char_at(s: Seq<char>, c: char, i: int)
    requires
        0 <= i < s.len(),
        s[i] == c,
        forall|k: int| 0 <= k < i ==> s[k] != c,
    ensures
        find_char(s, c) == Some(i),
    decreases i,
{
    if i > 0 {
        lemma_find_char_at(s.drop_first(), c, i - 1);
    }
}

proof fn lemma_find_char_none(s: Seq<char>, c: char)
    requires
        forall|k: int| 0 <= k < s.len() ==> s[k] != c,
    ensures
        find_char(s, c) is None,
    decreases s.len(),
{
    if s.len() > 0 {
        lemma_find_char_none(s.drop_first(), c);
    }
}

pub open spec fn line_views(v: Seq<Vec<char>>) -> Seq<Seq<char>> {
    v.map_values(|l: Vec<char>| l@)
}

/// `lines_of` on a character vector.
pub(crate) fn split_lines(s: &Vec<char>) -> (r: Vec<Vec<char>>)
    ensures
        line_views(r@) == lines_of(s@),
{
    let n = s.len();
    let mut r: Vec<Vec<char>> = Vec::new();
    let mut p: usize = 0;
    assert(s@.skip(0) =~= s@);
    while p < n
        invariant
            n == s@.len(),
            p <= n,
            lines_of(s@) == line_views(r@) + lines_of(s@.skip(p as int)),
        decreases n - p,
    {
        let ghost t = s@.skip(p as int);
        let mut q = p;
        while q < n && s[q] != '\n'
            invariant
                n == s@.len(),
                p <= q <= n,
                forall|k: int| p <= k < q ==> s@[k] != '\n',
            decreases n - q,
        {
            q = q + 1;
        }
        let ghost old_r = line_views(r@);
        if q == n {
            proof {
                lemma_find_char_none(t, '\n');
                assert(t =~= s@.subrange(p as int, n as int));
            }
            r.push(slice(s, p, n));
            proof {
                assert(line_views(r@) =~= old_r.push(t));
                assert(s@.skip(n as int) =~= Seq::<char>::empty());
                assert(lines_of(t) == seq![t]);
                assert(old_r + seq![t] =~= old_r.push(t));
            }
            p = n;
        } else {
            proof {
                lemma_find_char_at(t, '\n', q - p);
            }
            let end = if q > p && s[q - 1] == '\r' {
                q - 1
            } else {
                q
            };
            let line = slice(s, p, end);
            proof {
                assert(line@ =~= t.take(end - p));
                assert(t.skip(q - p + 1) =~= s@.skip(q + 1));
                assert(lines_of(t) == seq![line@] + lines_of(s@.skip(q + 1)));
            }
            r.push(line);
            proof {
                assert(line_views(r@) =~= old_r.push(line@));
                assert(old_r + (seq![line@] + lines_of(s@.skip(q + 1))) =~= old_r.push(line@) + lines_of(
                    s@.skip(q + 1),
                ));
            }
            p = q + 1;
        }
    }
    proof {
        assert(s@.skip(n as int) =~= Seq::<char>::empty());
        assert(line_views(r@) + Seq::<Seq<char>>::empty() =~= line_views(r@));
    }
    r
}

fn text_value(v: Option<RawValue>) -> (r: Option<String>)
    ensures
        r matches Some(s) ==> text_field(opt_raw(v)) == Some(s@),
        r is None ==> text_field(opt_raw(v)) is None,
{
    match v {
        None => Some(String::new()),
        Some(RawValue::Text(s)) => Some(s),
        Some(_) => None,
    }
}

fn list_value(v: Option<RawValue>) -> (r: Option<Vec<String>>)
    ensures
        r matches Some(s) ==> list_field(opt_raw(v)) == Some(views(s@)),
        r is None ==> list_field(opt_raw(v)) is None,
{
    match v {
        None => {
            let e: Vec<String> = Vec::new();
            proof {
                assert(views(e@) =~= Seq::<Seq<char>>::empty());
            }
            Some(e)
        },
        Some(RawValue::Items(s)) => Some(s),
        Some(_) => None,
    }
}

fn flag_value(v: &Option<RawValue>) -> (r: Option<bool>)
    ensures
        r == flag_field(opt_raw(*v)),
{
    match v {
        None => Some(false),
        Some(RawValue::Flag(b)) => Some(*b),
        Some(_) => None,
    }
}

fn type_value(v: &Option<RawValue>) -> (r: Option<ChannelType>)
    ensures
        r == channel_type_of(opt_raw(*v)),
{
    match v {
        Some(RawValue::Text(s)) => {
            if str_eq(s.as_str(), "slack") {
                Some(ChannelType::Slack)
            } else if str_eq(s.as_str(), "discord") {
                Some(ChannelType::Discord)
            } else if str_eq(s.as_str(), "telegram") {
                Some(ChannelType::Telegram)
            } else if str_eq(s.as_str(), "webhook") {
                Some(ChannelType::Webhook)
            } else {
                None
            }
        },
        _ => None,
    }
}

/// The channel a draft describes; see `to_config`.
fn make_config(d: ChannelDraft) -> (r: Option<ChannelConfig>)
    ensures
        r matches Some(c) ==> to_config(d@) == Some(c@),
        r is None ==> to_config(d@) is None,
{
    let ghost dv = d@;
    let kind = type_value(&d.kind);
    let enabled = flag_value(&d.enabled);
    let bot_token = text_value(d.bot_token);
    let app_token = text_value(d.app_token);
    let channel = text_value(d.channel);
    let channel_id = text_value(d.channel_id);
    let template = text_value(d.template);
    let model = text_value(d.model);
    let allowed_users = list_value(d.allowed_users);
    match (kind, bot_token, app_token, channel, channel_id, template, model, allowed_users, enabled) {
        (
            Some(kind),
            Some(bot_token),
            Some(app_token),
            Some(channel),
            Some(channel_id),
            Some(template),
            Some(model),
            Some(allowed_users),
            Some(enabled),
        ) => Some(
            ChannelConfig {
                kind,
                bot_token,
                app_token,
                channel,
                channel_id,
                template,
                model,
                allowed_users,
                enabled,
            },
        ),
        _ => None,
    }
}

fn raw_from(val: Vec<char>) -> (r: RawValue)
    ensures
        r@ == raw_of(val@),
{
    if equals(&val, "true") {
        RawValue::Flag(true)
    } else if equals(&val, "false") {
        RawValue::Flag(false)
    } else {
        RawValue::Text(string_from_chars(val))
    }
}

fn set_draft_field(d: &mut ChannelDraft, key: &Vec<char>, v: RawValue)
    ensures
        final(d)@ == set_field(old(d)@, key@, v@),
{
    if equals(key, "type") {
        d.kind = Some(v);
    } else if equals(key, "bot_token") {
        d.bot_token = Some(v);
    } else if equals(key, "app_token") {
        d.app_token = Some(v);
    } else if equals(key, "channel") {
        d.channel = Some(v);
    } else if equals(key, "channel_id") {
        d.channel_id = Some(v);
    } else if equals(key, "template") {
        d.template = Some(v);
    } else if equals(key, "model") {
        d.model = Some(v);
    } else if equals(key, "allowed_users") {
        d.allowed_users = Some(v);
    } else if equals(key, "enabled") {
        d.enabled = Some(v);
    }
}

/// The reader's state.
struct ParseState {
    done: Vec<ChannelConfig>,
    current: Option<ChannelDraft>,
    users: Option<Vec<String>>,
    in_users: bool,
}

pub open spec fn opt_draft(o: Option<ChannelDraft>) -> Option<DraftView> {
    match o {
        Some(d) => Some(d@),
        None => None,
    }
}

pub open spec fn opt_list(o: Option<Vec<String>>) -> Option<Seq<Seq<char>>> {
    match o {
        Some(v) => Some(views(v@)),
        None => None,
    }
}

impl View for ParseState {
    type V = ParseView;

    closed spec fn view(&self) -> ParseView {
        ParseView {
            done: config_views(self.done@),
            current: opt_draft(self.current),
            users: opt_list(self.users),
            in_users: self.in_users,
        }
    }
}

impl ParseState {
    /// Closes the current channel, keeping it when its fields are valid.
    fn close(&mut self)
        ensures
            config_views(final(self).done@) == flush(old(self)@),
            final(self).current is None,
    {
        let ghost st = self@;
        match self.current.take() {
            None => {},
            Some(d) => {
                let mut d = d;
                match self.users.take() {
                    Some(u) => {
                        d.allowed_users = Some(RawValue::Items(u));
                    },
                    None => {},
                }
                match make_config(d) {
                    Some(c) => {
                        self.done.push(c);
                        proof {
                            assert(config_views(self.done@) =~= st.done.push(c@));
                        }
                    },
                    None => {},
                }
            },
        }
    }

    /// Reads one line; see `step`.
    fn read_line(&mut self, line: &Vec<char>)
        ensures
            final(self)@ == step(old(self)@, line@),
    {
        let t = strip_chars(line, true, ' ');
        if t.len() == 0 || t[0] == '#' || equals(&t, "channels:") {
            return;
        }
        if starts_with(&t, "- type:") {
            proof {
                reveal_strlit("- type:");
            }
            self.close();
            let rest = slice(&t, 7, t.len());
            let v = strip_chars(&strip_chars(&rest, true, ' '), false, '"');
            proof {
                assert(rest@ =~= t@.skip(7));
            }
            self.current = Some(
                ChannelDraft {
                    kind: Some(RawValue::Text(string_from_chars(v))),
                    bot_token: None,
                    app_token: None,
                    channel: None,
                    channel_id: None,
                    template: None,
                    model: None,
                    allowed_users: None,
                    enabled: Some(RawValue::Flag(true)),
                },
            );
            self.users = None;
            self.in_users = false;
            return;
        }
        if self.current.is_none() {
            return;
        }
        if equals(&t, "allowed_users:") {
            let e: Vec<String> = Vec::new();
            proof {
                assert(views(e@) =~= Seq::<Seq<char>>::empty());
            }
            self.users = Some(e);
            self.in_users = true;
            return;
        }
        if self.in_users && starts_with(&t, "- ") {
            proof {
                reveal_strlit("- ");
            }
            let rest = slice(&t, 2, t.len());
            proof {
                assert(rest@ =~= t@.skip(2));
            }
            let item = string_from_chars(strip_chars(&strip_chars(&rest, true, ' '), false, '"'));
            match self.users.take() {
                Some(u) => {
                    let mut u = u;
                    let ghost uv = views(u@);
                    u.push(item);
                    proof {
                        assert(views(u@) =~= uv.push(item@));
                    }
                    self.users = Some(u);
                },
                None => {},
            }
            return;
        }
        self.in_users = false;
        let n = t.len();
        let mut c: usize = 0;
        while c < n && t[c] != ':'
            invariant
                n == t@.len(),
                c <= n,
                forall|k: int| 0 <= k < c ==> t@[k] != ':',
            decreases n - c,
        {
            c = c + 1;
        }
        if c == n {
            proof {
                lemma_find_char_none(t@, ':');
            }
            return;
        }
        proof {
            lemma_find_char_at(t@, ':', c as int);
        }
        let key = drop_dash_prefixes(strip_chars(&slice(&t, 0, c), true, ' '));
        let after = slice(&t, c + 1, n);
        let val = strip_chars(&strip_chars(&strip_chars(&after, true, ' '), false, '"'), false, '\'');
        proof {
            assert(after@ =~= t@.skip(c + 1));
        }
        if key.len() > 0 && val.len() > 0 {
            let raw = raw_from(val);
            match self.current.take() {
                Some(d) => {
                    let mut d = d;
                    set_draft_field(&mut d, &key, raw);
                    self.current = Some(d);
                },
                None => {},
            }
        }
    }
}

/// Reads the channels from the text of a configuration file.
pub fn parse_channels_yaml(content: &str) -> (r: Vec<ChannelConfig>)
    ensures
        config_views(r@) == channels_of(content@),
{
    let cs = chars_of(content);
    let lines = split_lines(&cs);
    let mut st = ParseState { done: Vec::new(), current: None, users: None, in_users: false };
    proof {
        assert(config_views(st.done@) =~= Seq::<ChannelConfigView>::empty());
        assert(st@ == initial());
    }
    let mut i: usize = 0;
    while i < lines.len()
        invariant
            i <= lines@.len(),
            line_views(lines@) == lines_of(content@),
            st@ == run(line_views(lines@).take(i as int)),
        decreases lines@.len() - i,
    {
        st.read_line(&lines[i]);
        proof {
            let lv = line_views(lines@);
            assert(lv.take(i + 1).drop_last() =~= lv.take(i as int));
            assert(lv.take(i + 1).last() == lines@[i as int]@);
        }
        i = i + 1;
    }
    proof {
        assert(line_views(lines@).take(lines@.len() as int) =~= line_views(lines@));
    }
    st.close();
    st.done
}

/// The environment variable a `$NAME` value refers to.
pub open spec fn env_reference(s: Seq<char>) -> Option<Seq<char>> {
    if s.len() > 0 && s[0] == '$' {
        Some(s.skip(1))
    } else {
        None
    }
}

/// The name of the environment variable that a `$NAME` token refers to;
/// `None` for a literal token.
pub fn env_var_name(s: &str) -> (r: Option<String>)
    ensures
        r matches Some(n) ==> env_reference(s@) == Some(n@),
        r is None ==> env_reference(s@) is None,
{
    let cs = chars_of(s);
    if cs.len() > 0 && cs[0] == '$' {
        let rest = slice(&cs, 1, cs.len());
        proof {
            assert(rest@ =~= s@.skip(1));
        }
        Some(string_from_chars(rest))
    } else {
        None
    }
}

/// A message cut to a platform's size limit: the first `max` bytes and an
/// ellipsis when longer, else the whole text.
pub open spec fn clipped(text: Seq<char>, max: int) -> Seq<u8> {
    if encode_utf8(text).len() <= max {
        encode_utf8(text)
    } else {
        encode_utf8(text).take(max) + encode_utf8(seq!['…'])
    }
}

/// Cuts a message to a size limit (Discord takes 1900 bytes, Telegram
/// 4000); see `clipped`.
pub fn clip_message(text: &str, max: usize) -> (r: String)
    requires
        text.spec_bytes().len() > max ==> is_char_boundary(text.spec_bytes(), max as int),
    ensures
        encode_utf8(r@) == clipped(text@, max as int),
{
    if text.as_bytes().len() <= max {
        return owned(text);
    }
    let (head, _) = text.split_at(max);
    let mut r = owned(head);
    r.append("…");
    proof {
        reveal_strlit("…");
        assert("…"@ =~= seq!['…']);
        crate::saas::lemma_encode_utf8_concat(head@, "…"@);
        assert(head.spec_bytes() =~= text.spec_bytes().take(max as int));
        assert(encode_utf8(r@) == encode_utf8(head@) + encode_utf8("…"@));
    }
    r
}

} // verus!

verus! {

/// A line `key: value` of a channel entry sets the field named `key` to the
/// value and leaves every other field as it was; a key the daemon does not
/// know changes nothing.
pub proof fn law_line_sets_its_own_field(d: DraftView, v: RawView, key: Seq<char>)
    ensures
        set_field(d, "type"@, v) == (DraftView { kind: Some(v), ..d }),
        set_field(d, "bot_token"@, v) == (DraftView { bot_token: Some(v), ..d }),
        set_field(d, "app_token"@, v) == (DraftView { app_token: Some(v), ..d }),
        set_field(d, "channel"@, v) == (DraftView { channel: Some(v), ..d }),
        set_field(d, "channel_id"@, v) == (DraftView { channel_id: Some(v), ..d }),
        set_field(d, "template"@, v) == (DraftView { template: Some(v), ..d }),
        set_field(d, "model"@, v) == (DraftView { model: Some(v), ..d }),
        set_field(d, "allowed_users"@, v) == (DraftView { allowed_users: Some(v), ..d }),
        set_field(d, "enabled"@, v) == (DraftView { enabled: Some(v), ..d }),
        key != "type"@ && key != "bot_token"@ && key != "app_token"@ && key != "channel"@ && key != "channel_id"@ && key != "template"@ && key != "model"@ && key != "allowed_users"@ && key != "enabled"@ ==> set_field(d, key, v) == d,
{
    reveal_strlit("type");
    reveal_strlit("bot_token");
    reveal_strlit("app_token");
    reveal_strlit("channel");
    reveal_strlit("channel_id");
    reveal_strlit("template");
    reveal_strlit("model");
    reveal_strlit("allowed_users");
    reveal_strlit("enabled");
    assert("type"@.len() != "bot_token"@.len());
    assert("type"@.len() != "app_token"@.len());
    assert("type"@.len() != "channel"@.len());
    assert("type"@.len() != "channel_id"@.len());
    assert("type"@.len() != "template"@.len());
    assert("type"@.len() != "model"@.len());
    assert("type"@.len() != "allowed_users"@.len());
    assert("type"@.len() != "enabled"@.len());
    assert("bot_token"@[0] != "app_token"@[0]);
    assert("bot_token"@.len() != "channel"@.len());
    assert("bot_token"@.len() != "channel_id"@.len());
    assert("bot_token"@.len() != "template"@.len());
    assert("bot_token"@.len() != "model"@.len());
    assert("bot_token"@.len() != "allowed_users"@.len());
    assert("bot_token"@.len() != "enabled"@.len());
    assert("app_token"@.len() != "channel"@.len());
    assert("app_token"@.len() != "channel_id"@.len());
    assert("app_token"@.len() != "template"@.len());
    assert("app_token"@.len() != "model"@.len());
    assert("app_token"@.len() != "allowed_users"@.len());
    assert("app_token"@.len() != "enabled"@.len());
    assert("channel"@.len() != "channel_id"@.len());
    assert("channel"@.len() != "template"@.len());
    assert("channel"@.len() != "model"@.len());
    assert("channel"@.len() != "allowed_users"@.len());
    assert("channel"@[0] != "enabled"@[0]);
    assert("channel_id"@.len() != "template"@.len());
    assert("channel_id"@.len() != "model"@.len());
    assert("channel_id"@.len() != "allowed_users"@.len());
    assert("channel_id"@.len() != "enabled"@.len());
    assert("template"@.len() != "model"@.len());
    assert("template"@.len() != "allowed_users"@.len());
    assert("template"@.len() != "enabled"@.len());
    assert("model"@.len() != "allowed_users"@.len());
    assert("model"@.len() != "enabled"@.len());
    assert("allowed_users"@.len() != "enabled"@.len());
}

} // verus!
