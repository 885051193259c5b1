//! Validation of command options beyond what the chat platform checks:
//! calendar dates, human-readable durations and guild-member references.

use vstd::prelude::*;
use crate::text::{decimal, decimal_string, strings_view, clone_strings, contains_str};

verus! {

/// The option names of a command that need validating, by kind.
pub struct ValidatedOptions {
    /// Options that must hold a calendar date.
    pub dates: Vec<String>,
    /// Options that must hold a duration.
    pub durations: Vec<String>,
    /// Options that must name a member of the guild.
    pub guild_members: Vec<String>,
}

/// The option names of a [`ValidatedOptions`], as character sequences.
pub struct ValidatedOptionsView {
    pub dates: Seq<Seq<char>>,
    pub durations: Seq<Seq<char>>,
    pub guild_members: Seq<Seq<char>>,
}

impl View for ValidatedOptions {
    type V = ValidatedOptionsView;

    open spec fn view(&self) -> ValidatedOptionsView {
        ValidatedOptionsView {
            dates: strings_view(self.dates@),
            durations: strings_view(self.durations@),
            guild_members: strings_view(self.guild_members@),
        }
    }
}

/// No option names at all.
pub open spec fn no_validation() -> ValidatedOptionsView {
    ValidatedOptionsView { dates: seq![], durations: seq![], guild_members: seq![] }
}

/// Builds [`ValidatedOptions`]; a list not given is empty.
pub struct ValidatedOptionsBuilder {
    pub dates: Vec<String>,
    pub durations: Vec<String>,
    pub guild_members: Vec<String>,
}

impl ValidatedOptionsBuilder {
    pub fn dates(self, names: Vec<String>) -> (r: ValidatedOptionsBuilder)
        ensures
            strings_view(r.dates@) == strings_view(names@),
            strings_view(r.durations@) == strings_view(self.durations@),
            strings_view(r.guild_members@) == strings_view(self.guild_members@),
    {
        ValidatedOptionsBuilder { dates: names, durations: self.durations, guild_members: self.guild_members }
    }

    pub fn durations(self, names: Vec<String>) -> (r: ValidatedOptionsBuilder)
        ensures
            strings_view(r.dates@) == strings_view(self.dates@),
            strings_view(r.durations@) == strings_view(names@),
            strings_view(r.guild_members@) == strings_view(self.guild_members@),
    {
        ValidatedOptionsBuilder { dates: self.dates, durations: names, guild_members: self.guild_members }
    }

    pub fn guild_members(self, names: Vec<String>) -> (r: ValidatedOptionsBuilder)
        ensures
            strings_view(r.dates@) == strings_view(self.dates@),
            strings_view(r.durations@) == strings_view(self.durations@),
            strings_view(r.guild_members@) == strings_view(names@),
    {
        ValidatedOptionsBuilder { dates: self.dates, durations: self.durations, guild_members: names }
    }

    pub fn build(self) -> (r: ValidatedOptions)
        ensures
            r@ == (ValidatedOptionsView {
                dates: strings_view(self.dates@),
                durations: strings_view(self.durations@),
                guild_members: strings_view(self.guild_members@),
            }),
    {
        ValidatedOptions { dates: self.dates, durations: self.durations, guild_members: self.guild_members }
    }
}

impl ValidatedOptions {
    /// A builder with every list empty.
    pub fn builder() -> (r: ValidatedOptionsBuilder)
        ensures
            r.dates@.len() == 0,
            r.durations@.len() == 0,
            r.guild_members@.len() == 0,
    {
        ValidatedOptionsBuilder { dates: Vec::new(), durations: Vec::new(), guild_members: Vec::new() }
    }

    /// Options with nothing to validate.
    pub fn none() -> (r: ValidatedOptions)
        ensures
            r@ == no_validation(),
    {
        let r = ValidatedOptions { dates: Vec::new(), durations: Vec::new(), guild_members: Vec::new() };
        assert(r@.dates =~= seq![]);
        assert(r@.durations =~= seq![]);
        assert(r@.guild_members =~= seq![]);
        r
    }

    /// A copy of these options.
    pub fn duplicate(&self) -> (r: ValidatedOptions)
        ensures
            r@ == self@,
    {
        ValidatedOptions {
            dates: clone_strings(&self.dates),
            durations: clone_strings(&self.durations),
            guild_members: clone_strings(&self.guild_members),
        }
    }
}

/// A resolved option value of an invocation.
pub enum OptionValue {
    String(String),
    Integer(i64),
    /// A floating-point number, as its IEEE 754 bits.
    Number(u64),
    Boolean(bool),
    /// A user, and whether the user is a member of the guild.
    User { id: u64, is_member: bool },
    Channel(u64),
    Role(u64),
    Attachment(u64),
}

/// A named option of an invocation.
pub struct CommandOption {
    pub name: String,
    pub value: OptionValue,
}

/// Why an option is not valid.
#[derive(Clone, Debug, PartialEq, Eq)]
pub enum InvalidOptionError {
    /// The option is not a calendar date.
    NotDate(String),
    /// The option is not a duration.
    NotDuration(String),
    /// The option is a duration longer than allowed.
    DurationTooLong(String),
    /// The option names a user who is not a member of the guild.
    NotGuildMember(u64),
}

/// An [`InvalidOptionError`] with its text as a character sequence.
pub enum OptionFault {
    NotDate(Seq<char>),
    NotDuration(Seq<char>),
    DurationTooLong(Seq<char>),
    NotGuildMember(u64),
}

impl View for InvalidOptionError {
    type V = OptionFault;

    open spec fn view(&self) -> OptionFault {
        match self {
            InvalidOptionError::NotDate(s) => OptionFault::NotDate(s@),
            InvalidOptionError::NotDuration(s) => OptionFault::NotDuration(s@),
            InvalidOptionError::DurationTooLong(s) => OptionFault::DurationTooLong(s@),
            InvalidOptionError::NotGuildMember(id) => OptionFault::NotGuildMember(*id),
        }
    }
}

/// The kinds of validated options.
pub enum OptionKind {
    Date,
    Duration,
    GuildMember,
}

/// Whether the text is a calendar date in the ISO 8601 form the time library
/// parses.
pub uninterp spec fn iso8601_date(s: Seq<char>) -> bool;

/// The span, in nanoseconds, that the duration parser reads from the text;
/// none where it rejects the text.
pub uninterp spec fn parsed_duration_nanos(s: Seq<char>) -> Option<int>;

/// The longest duration an option may hold: 28 days, in nanoseconds.
pub const MAX_DURATION_NANOS: u64 = 2_419_200_000_000_000;

pub const NANOS_PER_SECOND: u128 = 1_000_000_000;
pub const NANOS_PER_MINUTE: u128 = 60_000_000_000;
pub const NANOS_PER_HOUR: u128 = 3_600_000_000_000;
pub const NANOS_PER_DAY: u128 = 86_400_000_000_000;
pub const NANOS_PER_WEEK: u128 = 604_800_000_000_000;
pub const NANOS_PER_MONTH: u128 = 2_592_000_000_000_000;
pub const NANOS_PER_YEAR: u128 = 31_536_000_000_000_000;

/// Where the magnitudes of a duration text saturate: one past `u64::MAX`.
pub const MAGNITUDE_CAP: u128 = 0x1_0000_0000_0000_0000;

pub open spec fn is_digit(c: char) -> bool {
    '0' <= c && c <= '9'
}

pub open spec fn digit_value(c: char) -> int {
    c as int - '0' as int
}

pub open spec fn saturate(x: int) -> int {
    if x > MAGNITUDE_CAP { MAGNITUDE_CAP as int } else { x }
}

pub const NANOS_PER_MILLISECOND: u128 = 1_000_000;
pub const NANOS_PER_MICROSECOND: u128 = 1_000;

/// A character the duration parser takes into a unit: an ASCII letter, or
/// the micro sign.
pub open spec fn is_unit_char(c: char) -> bool {
    ('a' <= c && c <= 'z') || ('A' <= c && c <= 'Z') || c == '\u{b5}'
}

/// How many unit characters follow from `i` on.
pub open spec fn unit_len(s: Seq<char>, i: int) -> nat
    decreases s.len() - i,
{
    if 0 <= i < s.len() && is_unit_char(s[i]) {
        1 + unit_len(s, i + 1)
    } else {
        0
    }
}

/// The unit written from `i` on.
pub open spec fn unit_text(s: Seq<char>, i: int) -> Seq<char> {
    s.subrange(i, i + unit_len(s, i))
}

/// Whether `c` is the lower-case character `l`, or its capital.
pub open spec fn same_letter(c: char, l: char) -> bool {
    c == l || ('a' <= l && l <= 'z' && c as u32 + 32 == l as u32)
}

/// Whether `u`, read without regard to case, is the unit name `name`.
pub open spec fn names_unit(u: Seq<char>, name: Seq<char>) -> bool {
    u.len() == name.len() && forall|k: int| 0 <= k < u.len() ==> same_letter(#[trigger] u[k], name[k])
}

/// The length, in nanoseconds, of the unit that the duration parser reads
/// for `u`. No unit counts in seconds; a name the parser does not know
/// makes it reject the text before it computes anything, and also counts
/// as a second here.
pub open spec fn unit_nanos(u: Seq<char>) -> int {
    if names_unit(u, "y"@) || names_unit(u, "year"@) {
        NANOS_PER_YEAR as int
    } else if names_unit(u, "mon"@) || names_unit(u, "month"@) {
        NANOS_PER_MONTH as int
    } else if names_unit(u, "w"@) || names_unit(u, "week"@) {
        NANOS_PER_WEEK as int
    } else if names_unit(u, "d"@) || names_unit(u, "day"@) {
        NANOS_PER_DAY as int
    } else if names_unit(u, "h"@) || names_unit(u, "hour"@) {
        NANOS_PER_HOUR as int
    } else if names_unit(u, "m"@) || names_unit(u, "min"@) || names_unit(u, "minute"@) {
        NANOS_PER_MINUTE as int
    } else if names_unit(u, "ms"@) || names_unit(u, "msec"@) || names_unit(u, "millisecond"@) {
        NANOS_PER_MILLISECOND as int
    } else if names_unit(u, "\u{b5}s"@) || names_unit(u, "\u{b5}sec"@) || names_unit(u, "\u{b5}second"@)
        || names_unit(u, "us"@) || names_unit(u, "usec"@) || names_unit(u, "usecond"@) || names_unit(
        u,
        "microsecond"@,
    ) {
        NANOS_PER_MICROSECOND as int
    } else if names_unit(u, "ns"@) || names_unit(u, "nsec"@) || names_unit(u, "nanosecond"@) {
        1
    } else {
        NANOS_PER_SECOND as int
    }
}

/// The unit of a number that ends just before `i`, in nanoseconds.
pub open spec fn unit_bound(s: Seq<char>, i: int) -> int {
    unit_nanos(unit_text(s, i))
}

/// The state of a left-to-right scan of a duration text: the number being
/// read, whether one is, and the saturated sum and product of the bounds of
/// the terms read so far.
pub struct MagnitudeScan {
    pub number: int,
    pub reading: bool,
    pub sum: int,
    pub product: int,
}

/// The scan after the number being read ends with a unit bounded by `unit`.
pub open spec fn end_term(st: MagnitudeScan, unit: int) -> MagnitudeScan {
    let term = saturate(st.number * unit);
    let factor = if term <= NANOS_PER_SECOND { 1 } else { (term + NANOS_PER_SECOND - 1) / NANOS_PER_SECOND as int };
    MagnitudeScan { number: 0, reading: false, sum: saturate(st.sum + term), product: saturate(st.product * factor) }
}

pub open spec fn scan_step(st: MagnitudeScan, s: Seq<char>, i: int) -> MagnitudeScan {
    if is_digit(s[i]) {
        MagnitudeScan { number: saturate(st.number * 10 + digit_value(s[i])), reading: true, ..st }
    } else if st.reading {
        end_term(st, unit_bound(s, i))
    } else {
        st
    }
}

/// The scan of the first `n` characters.
pub open spec fn scan_prefix(s: Seq<char>, n: nat) -> MagnitudeScan
    decreases n,
{
    if n == 0 {
        MagnitudeScan { number: 0, reading: false, sum: 0, product: 1 }
    } else {
        scan_step(scan_prefix(s, (n - 1) as nat), s, n - 1)
    }
}

/// The scan of the whole text; a number at the end counts in seconds.
pub open spec fn scan_text(s: Seq<char>) -> MagnitudeScan {
    let st = scan_prefix(s, s.len());
    if st.reading { end_term(st, NANOS_PER_SECOND as int) } else { st }
}

/// Whether the duration parser stays within 64-bit nanoseconds on the text:
/// the sum of each number times its unit fits, and where terms are
/// multiplied, so does the product of their spans in whole seconds, rounded
/// up, with a term under a second counted as one second. Sums and products
/// only grow, so saturating them at one past `u64::MAX` decides the same.
pub open spec fn duration_in_parser_range(s: Seq<char>) -> bool {
    let t = scan_text(s);
    &&& t.sum <= u64::MAX
    &&& s.contains('*') ==> t.product * NANOS_PER_SECOND <= u64::MAX
}

pub open spec fn not_a_string() -> Seq<char> {
    "not a string"@
}

/// What is wrong with a date option, if anything.
pub open spec fn date_fault(v: OptionValue) -> Option<OptionFault> {
    match v {
        OptionValue::String(s) => if iso8601_date(s@) { None } else { Some(OptionFault::NotDate(s@)) },
        _ => Some(OptionFault::NotDate(not_a_string())),
    }
}

/// The text with every digit replaced by `0`: the same form, with every
/// number zero.
pub open spec fn zero_digits(s: Seq<char>) -> Seq<char> {
    Seq::new(s.len(), |k: int| if is_digit(s[k]) { '0' } else { s[k] })
}

/// What is wrong with a duration text, if anything. A text out of the
/// parser's range is too long if it has the form of a duration, which the
/// parser decides on the same text with its numbers zeroed; otherwise it is
/// not a duration.
pub open spec fn duration_text_fault(s: Seq<char>) -> Option<OptionFault> {
    if !duration_in_parser_range(s) {
        if parsed_duration_nanos(zero_digits(s)) is Some {
            Some(OptionFault::DurationTooLong(s))
        } else {
            Some(OptionFault::NotDuration(s))
        }
    } else {
        match parsed_duration_nanos(s) {
            None => Some(OptionFault::NotDuration(s)),
            Some(n) => if n > MAX_DURATION_NANOS { Some(OptionFault::DurationTooLong(s)) } else { None },
        }
    }
}

/// What is wrong with a duration option, if anything.
pub open spec fn duration_fault(v: OptionValue) -> Option<OptionFault> {
    match v {
        OptionValue::String(s) => duration_text_fault(s@),
        _ => Some(OptionFault::NotDuration(not_a_string())),
    }
}

/// What is wrong with a guild-member option, if anything.
pub open spec fn member_fault(v: OptionValue) -> Option<OptionFault> {
    match v {
        OptionValue::User { id, is_member } => if is_member { None } else { Some(OptionFault::NotGuildMember(id)) },
        _ => None,
    }
}

pub open spec fn fault_of(kind: OptionKind, v: OptionValue) -> Option<OptionFault> {
    match kind {
        OptionKind::Date => date_fault(v),
        OptionKind::Duration => duration_fault(v),
        OptionKind::GuildMember => member_fault(v),
    }
}

/// The fault of the first option of `opts`, in invocation order, that is
/// named in `names` and not valid as a `kind`.
pub open spec fn first_fault(kind: OptionKind, names: Seq<Seq<char>>, opts: Seq<CommandOption>) -> Option<OptionFault>
    decreases opts.len(),
{
    if opts.len() == 0 {
        None
    } else if names.contains(opts[0].name@) && fault_of(kind, opts[0].value) is Some {
        fault_of(kind, opts[0].value)
    } else {
        first_fault(kind, names, opts.drop_first())
    }
}

/// The fault that validation reports: dates first, then durations, then
/// guild members.
pub open spec fn validation_fault(v: ValidatedOptionsView, opts: Seq<CommandOption>) -> Option<OptionFault> {
    match first_fault(OptionKind::Date, v.dates, opts) {
        Some(f) => Some(f),
        None => match first_fault(OptionKind::Duration, v.durations, opts) {
            Some(f) => Some(f),
            None => first_fault(OptionKind::GuildMember, v.guild_members, opts),
        },
    }
}

/// Whether a validation result reports exactly the given fault.
pub open spec fn reports(r: Result<(), InvalidOptionError>, f: Option<OptionFault>) -> bool {
    match r {
        Ok(()) => f is None,
        Err(e) => f == Some(e@),
    }
}

fn saturated(x: u128) -> (r: u128)
    ensures
        r as int == saturate(x as int),
{
    if x > MAGNITUDE_CAP { MAGNITUDE_CAP } else { x }
}

fn end_term_exec(number: u128, sum: u128, product: u128, unit: u128) -> (r: (u128, u128))
    requires
        number <= MAGNITUDE_CAP,
        sum <= MAGNITUDE_CAP,
        1 <= product <= MAGNITUDE_CAP,
        1 <= unit <= NANOS_PER_YEAR,
    ensures
        ({
            let st = end_term(MagnitudeScan { number: number as int, reading: true, sum: sum as int, product: product as int }, unit as int);
            &&& r.0 as int == st.sum
            &&& r.1 as int == st.product
        }),
        r.0 <= MAGNITUDE_CAP,
        1 <= r.1 <= MAGNITUDE_CAP,
{
    assert(number * unit <= MAGNITUDE_CAP * NANOS_PER_YEAR) by (nonlinear_arith)
        requires
            number <= MAGNITUDE_CAP,
            unit <= NANOS_PER_YEAR,
    ;
    let term = saturated(number * unit);
    let factor: u128 = if term <= NANOS_PER_SECOND { 1 } else { (term + NANOS_PER_SECOND - 1) / NANOS_PER_SECOND };
    assert(factor <= 0x10_0000_0000);
    assert(1 <= factor);
    assert(product * factor <= MAGNITUDE_CAP * 0x10_0000_0000) by (nonlinear_arith)
        requires
            product <= MAGNITUDE_CAP,
            factor <= 0x10_0000_0000,
    ;
    assert(product * factor >= 1) by (nonlinear_arith)
        requires
            product >= 1,
            factor >= 1,
    ;
    (saturated(sum + term), saturated(product * factor))
}

fn is_unit_char_exec(c: char) -> (r: bool)
    ensures
        r == is_unit_char(c),
{
    ('a' <= c && c <= 'z') || ('A' <= c && c <= 'Z') || c == '\u{b5}'
}

proof fn lemma_unit_len(s: Seq<char>, i: int, j: int)
    requires
        0 <= i <= j <= s.len(),
        forall|k: int| i <= k < j ==> is_unit_char(#[trigger] s[k]),
        j == s.len() || !is_unit_char(s[j]),
    ensures
        unit_len(s, i) == j - i,
    decreases j - i,
{
    if i < j {
        lemma_unit_len(s, i + 1, j);
    }
}

/// Whether the `len` characters of `s` from `i` on name the unit `name`.
fn names_unit_at(s: &str, i: usize, len: usize, name: &str) -> (r: bool)
    requires
        i + len <= s@.len(),
        s@.len() <= usize::MAX,
    ensures
        r == names_unit(s@.subrange(i as int, i + len), name@),
{
    let ghost u = s@.subrange(i as int, i + len);
    if name.unicode_len() != len {
        return false;
    }
    let mut k: usize = 0;
    while k < len
        invariant
            i + len <= s@.len(),
            s@.len() <= usize::MAX,
            name@.len() == len,
            u == s@.subrange(i as int, i + len),
            0 <= k <= len,
            forall|m: int| 0 <= m < k ==> same_letter(#[trigger] u[m], name@[m]),
        decreases len - k,
    {
        let c = s.get_char(i + k);
        let l = name.get_char(k);
        assert(u[k as int] == c);
        if !(c == l || ('a' <= l && l <= 'z' && c as u32 + 32 == l as u32)) {
            return false;
        }
        k += 1;
    }
    true
}

fn unit_bound_at(s: &str, i: usize, n: usize) -> (r: u128)
    requires
        n == s@.len(),
        i < n,
    ensures
        r as int == unit_bound(s@, i as int),
        1 <= r <= NANOS_PER_YEAR,
{
    let mut j: usize = i;
    while j < n && is_unit_char_exec(s.get_char(j))
        invariant
            n == s@.len(),
            i <= j <= n,
            forall|k: int| i <= k < j ==> is_unit_char(#[trigger] s@[k]),
        decreases n - j,
    {
        j += 1;
    }
    proof {
        lemma_unit_len(s@, i as int, j as int);
    }
    let len = j - i;
    if names_unit_at(s, i, len, "y") || names_unit_at(s, i, len, "year") {
        NANOS_PER_YEAR
    } else if names_unit_at(s, i, len, "mon") || names_unit_at(s, i, len, "month") {
        NANOS_PER_MONTH
    } else if names_unit_at(s, i, len, "w") || names_unit_at(s, i, len, "week") {
        NANOS_PER_WEEK
    } else if names_unit_at(s, i, len, "d") || names_unit_at(s, i, len, "day") {
        NANOS_PER_DAY
    } else if names_unit_at(s, i, len, "h") || names_unit_at(s, i, len, "hour") {
        NANOS_PER_HOUR
    } else if names_unit_at(s, i, len, "m") || names_unit_at(s, i, len, "min") || names_unit_at(
        s,
        i,
        len,
        "minute",
    ) {
        NANOS_PER_MINUTE
    } else if names_unit_at(s, i, len, "ms") || names_unit_at(s, i, len, "msec") || names_unit_at(
        s,
        i,
        len,
        "millisecond",
    ) {
        NANOS_PER_MILLISECOND
    } else if names_unit_at(s, i, len, "\u{b5}s") || names_unit_at(s, i, len, "\u{b5}sec") || names_unit_at(
        s,
        i,
        len,
        "\u{b5}second",
    ) || names_unit_at(s, i, len, "us") || names_unit_at(s, i, len, "usec") || names_unit_at(s, i, len, "usecond")
        || names_unit_at(s, i, len, "microsecond") {
        NANOS_PER_MICROSECOND
    } else if names_unit_at(s, i, len, "ns") || names_unit_at(s, i, len, "nsec") || names_unit_at(
        s,
        i,
        len,
        "nanosecond",
    ) {
        1
    } else {
        NANOS_PER_SECOND
    }
}

/// Whether the duration parser stays within 64-bit nanoseconds on the text.
pub fn duration_in_range(s: &str) -> (r: bool)
    ensures
        r == duration_in_parser_range(s@),
{
    let n = s.unicode_len();
    let mut number: u128 = 0;
    let mut reading = false;
    let mut sum: u128 = 0;
    let mut product: u128 = 1;
    let mut star = false;
    let mut i: usize = 0;
    while i < n
        invariant
            n == s@.len(),
            0 <= i <= n,
            scan_prefix(s@, i as nat) == (MagnitudeScan {
                number: number as int,
                reading,
                sum: sum as int,
                product: product as int,
            }),
            number <= MAGNITUDE_CAP,
            sum <= MAGNITUDE_CAP,
            1 <= product <= MAGNITUDE_CAP,
            star == exists|k: int| 0 <= k < i && s@[k] == '*',
        decreases n - i,
    {
        let c = s.get_char(i);
        if c == '*' {
            star = true;
        }
        if '0' <= c && c <= '9' {
            let d = (c as u32 - '0' as u32) as u128;
            number = saturated(number * 10 + d);
            reading = true;
        } else if reading {
            let unit = unit_bound_at(s, i, n);
            let ends = end_term_exec(number, sum, product, unit);
            sum = ends.0;
            product = ends.1;
            number = 0;
            reading = false;
        }
        i += 1;
    }
    if reading {
        let ends = end_term_exec(number, sum, product, NANOS_PER_SECOND);
        sum = ends.0;
        product = ends.1;
    }
    assert(star == s@.contains('*'));
    sum <= u64::MAX as u128 && (!star || product * NANOS_PER_SECOND <= u64::MAX as u128)
}

proof fn lemma_zeroed_scan(s: Seq<char>, n: nat)
    requires
        n <= s.len(),
    ensures
        scan_prefix(zero_digits(s), n).number == 0,
        scan_prefix(zero_digits(s), n).sum == 0,
        scan_prefix(zero_digits(s), n).product == 1,
    decreases n,
{
    if n > 0 {
        lemma_zeroed_scan(s, (n - 1) as nat);
        let z = zero_digits(s);
        assert(z[n - 1] == (if is_digit(s[n - 1]) { '0' } else { s[n - 1] }));
    }
}

/// A text with its numbers zeroed is within the parser's range.
proof fn lemma_zeroed_in_range(s: Seq<char>)
    ensures
        duration_in_parser_range(zero_digits(s)),
{
    lemma_zeroed_scan(s, s.len());
}

/// The text with every digit replaced by `0`.
pub fn zero_digits_string(s: &str) -> (r: String)
    ensures
        r@ == zero_digits(s@),
{
    let n = s.unicode_len();
    let mut r = String::new();
    let mut i: usize = 0;
    while i < n
        invariant
            n == s@.len(),
            0 <= i <= n,
            r@ =~= zero_digits(s@).subrange(0, i as int),
        decreases n - i,
    {
        let c = s.get_char(i);
        let ghost before = r@;
        let ghost z = zero_digits(s@);
        assert(z[i as int] == (if is_digit(c) { '0' } else { c }));
        if '0' <= c && c <= '9' {
            r.append("0");
            proof {
                reveal_strlit("0");
            }
            assert("0"@ =~= seq!['0']);
        } else {
            let piece = s.substring_char(i, i + 1);
            assert(piece@ =~= seq![c]);
            r.append(piece);
        }
        assert(r@ =~= before.push(z[i as int]));
        assert(z.subrange(0, i as int + 1) =~= z.subrange(0, i as int).push(z[i as int]));
        i += 1;
    }
    r
}

/// Relies on `time::Date::parse` with the ISO 8601 parsing description:
/// whether it accepts the text, which depends on the text alone.
#[verifier::external_body]
fn parses_as_date(s: &str) -> (r: bool)
    ensures
        r == iso8601_date(s@),
{
    time::Date::parse(s, &time::format_description::well_known::Iso8601::PARSING).is_ok()
}

/// Relies on `duration_str::parse_time`: the span it reads, in whole
/// nanoseconds. The parser builds the span from a `u64` count of
/// nanoseconds, and does not overflow on a text within
/// `duration_in_parser_range`.
#[verifier::external_body]
fn parse_duration_nanos(s: &str) -> (r: Option<u64>)
    requires
        duration_in_parser_range(s@),
    ensures
        match r {
            Some(n) => parsed_duration_nanos(s@) == Some(n as int),
            None => parsed_duration_nanos(s@) is None,
        },
{
    duration_str::parse_time(s).ok().map(|d| d.whole_nanoseconds() as u64)
}

/// The verdict on a date text, given whether the date parser accepts it.
pub fn judge_date(raw: &str, is_date: bool) -> (r: Option<InvalidOptionError>)
    ensures
        match r {
            None => is_date,
            Some(e) => !is_date && e@ == OptionFault::NotDate(raw@),
        },
{
    if is_date {
        None
    } else {
        Some(InvalidOptionError::NotDate(String::from_str(raw)))
    }
}

/// The verdict on a duration text, given whether the parser can read it
/// without overflowing and, if so, the span in nanoseconds it read, and
/// otherwise whether the text has the form of a duration: a text of that
/// form out of the parser's range, or one of more than 28 days, is too
/// long.
pub fn judge_duration(raw: &str, in_range: bool, parsed: Option<u64>, well_formed: bool) -> (r: Option<
    InvalidOptionError,
>)
    ensures
        match r {
            None => in_range && (parsed matches Some(n) && n <= MAX_DURATION_NANOS),
            Some(e) => if !in_range {
                if well_formed {
                    e@ == OptionFault::DurationTooLong(raw@)
                } else {
                    e@ == OptionFault::NotDuration(raw@)
                }
            } else {
                match parsed {
                    None => e@ == OptionFault::NotDuration(raw@),
                    Some(n) => n > MAX_DURATION_NANOS && e@ == OptionFault::DurationTooLong(raw@),
                }
            },
        },
{
    if !in_range {
        return if well_formed {
            Some(InvalidOptionError::DurationTooLong(String::from_str(raw)))
        } else {
            Some(InvalidOptionError::NotDuration(String::from_str(raw)))
        };
    }
    match parsed {
        None => Some(InvalidOptionError::NotDuration(String::from_str(raw))),
        Some(n) => if n > MAX_DURATION_NANOS {
            Some(InvalidOptionError::DurationTooLong(String::from_str(raw)))
        } else {
            None
        },
    }
}

/// The span of a duration text in nanoseconds, if the parser reads one.
pub fn duration_nanos(raw: &str) -> (r: Option<u64>)
    ensures
        match r {
            Some(n) => duration_in_parser_range(raw@) && parsed_duration_nanos(raw@) == Some(n as int),
            None => !duration_in_parser_range(raw@) || parsed_duration_nanos(raw@) is None,
        },
{
    if duration_in_range(raw) {
        parse_duration_nanos(raw)
    } else {
        None
    }
}

/// What is wrong with an option value of the given kind, if anything.
pub fn check_option(kind: &OptionKind, value: &OptionValue) -> (r: Option<InvalidOptionError>)
    ensures
        match r {
            None => fault_of(*kind, *value) is None,
            Some(e) => fault_of(*kind, *value) == Some(e@),
        },
{
    proof {
        reveal_strlit("not a string");
    }
    match kind {
        OptionKind::Date => match value {
            OptionValue::String(s) => judge_date(s.as_str(), parses_as_date(s.as_str())),
            _ => Some(InvalidOptionError::NotDate(String::from_str("not a string"))),
        },
        OptionKind::Duration => match value {
            OptionValue::String(s) => {
                let in_range = duration_in_range(s.as_str());
                if in_range {
                    judge_duration(s.as_str(), true, parse_duration_nanos(s.as_str()), true)
                } else {
                    let zeroed = zero_digits_string(s.as_str());
                    proof {
                        lemma_zeroed_in_range(s@);
                    }
                    let well_formed = parse_duration_nanos(zeroed.as_str()).is_some();
                    judge_duration(s.as_str(), false, None, well_formed)
                }
            },
            _ => Some(InvalidOptionError::NotDuration(String::from_str("not a string"))),
        },
        OptionKind::GuildMember => match value {
            OptionValue::User { id, is_member } => if *is_member {
                None
            } else {
                Some(InvalidOptionError::NotGuildMember(*id))
            },
            _ => None,
        },
    }
}

/// The first option named in `names` that is not valid as a `kind`.
pub fn first_invalid(kind: &OptionKind, names: &Vec<String>, options: &[CommandOption]) -> (r: Result<(), InvalidOptionError>)
    ensures
        reports(r, first_fault(*kind, strings_view(names@), options@)),
{
    let ghost all = options@;
    let mut i: usize = 0;
    assert(all.subrange(0, all.len() as int) =~= all);
    while i < options.len()
        invariant
            0 <= i <= options.len(),
            all == options@,
            first_fault(*kind, strings_view(names@), all) == first_fault(
                *kind,
                strings_view(names@),
                all.subrange(i as int, all.len() as int),
            ),
        decreases options.len() - i,
    {
        let ghost rest = all.subrange(i as int, all.len() as int);
        assert(rest[0] == options@[i as int]);
        assert(rest.drop_first() =~= all.subrange(i as int + 1, all.len() as int));
        if contains_str(names, options[i].name.as_str()) {
            match check_option(kind, &options[i].value) {
                Some(e) => {
                    return Err(e);
                },
                None => {},
            }
        }
        i += 1;
    }
    Ok(())
}

impl ValidatedOptions {
    /// Validates the date options present in `options`.
    pub fn validate_dates(&self, options: &[CommandOption]) -> (r: Result<(), InvalidOptionError>)
        ensures
            reports(r, first_fault(OptionKind::Date, self@.dates, options@)),
    {
        first_invalid(&OptionKind::Date, &self.dates, options)
    }

    /// Validates the duration options present in `options`.
    pub fn validate_durations(&self, options: &[CommandOption]) -> (r: Result<(), InvalidOptionError>)
        ensures
            reports(r, first_fault(OptionKind::Duration, self@.durations, options@)),
    {
        first_invalid(&OptionKind::Duration, &self.durations, options)
    }

    /// Validates the guild-member options present in `options`.
    pub fn validate_guild_members(&self, options: &[CommandOption]) -> (r: Result<(), InvalidOptionError>)
        ensures
            reports(r, first_fault(OptionKind::GuildMember, self@.guild_members, options@)),
    {
        first_invalid(&OptionKind::GuildMember, &self.guild_members, options)
    }

    /// Validates the options present in `options`: dates, then durations,
    /// then guild members, stopping at the first invalid one.
    pub fn validate(&self, options: &[CommandOption]) -> (r: Result<(), InvalidOptionError>)
        ensures
            reports(r, validation_fault(self@, options@)),
    {
        self.validate_dates(options)?;
        self.validate_durations(options)?;
        self.validate_guild_members(options)?;
        Ok(())
    }
}

/// The span of a duration text in whole seconds, if the parser reads one.
pub fn duration_secs(raw: &str) -> (r: Option<u64>)
    ensures
        match r {
            Some(secs) => duration_in_parser_range(raw@) && (parsed_duration_nanos(raw@) matches Some(n) && secs
                == n / NANOS_PER_SECOND as int),
            None => !duration_in_parser_range(raw@) || parsed_duration_nanos(raw@) is None,
        },
{
    match duration_nanos(raw) {
        Some(n) => Some(n / 1_000_000_000),
        None => None,
    }
}

/// What is wrong with an option, in words.
pub open spec fn fault_text(f: OptionFault) -> Seq<char> {
    match f {
        OptionFault::NotDate(s) => "Not a date (ISO 8601, YYYY-MM-DD): "@ + s,
        OptionFault::NotDuration(s) => "Not a time duration: "@ + s,
        OptionFault::DurationTooLong(s) => "Time duration is too long (more than 28 days): "@ + s,
        OptionFault::NotGuildMember(id) => "Not a member of the current guild: "@ + decimal(id as nat),
    }
}

impl InvalidOptionError {
    /// What is wrong, in words.
    pub fn message(&self) -> (r: String)
        ensures
            r@ == fault_text(self@),
    {
        match self {
            InvalidOptionError::NotDate(s) => {
                let mut r = String::from_str("Not a date (ISO 8601, YYYY-MM-DD): ");
                r.append(s.as_str());
                r
            },
            InvalidOptionError::NotDuration(s) => {
                let mut r = String::from_str("Not a time duration: ");
                r.append(s.as_str());
                r
            },
            InvalidOptionError::DurationTooLong(s) => {
                let mut r = String::from_str("Time duration is too long (more than 28 days): ");
                r.append(s.as_str());
                r
            },
            InvalidOptionError::NotGuildMember(id) => {
                let mut r = String::from_str("Not a member of the current guild: ");
                let digits = decimal_string(*id);
                r.append(digits.as_str());
                r
            },
        }
    }
}

} // verus!
