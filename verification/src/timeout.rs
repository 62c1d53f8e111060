//! Request timeouts: how one is chosen, and the context that carries it.

use crate::text;
use vstd::prelude::*;
use vstd::string::*;

verus! {

pub const NANOS_PER_SEC: u64 = 1_000_000_000;

/// The kernel parameter that holds the image resource timeout in seconds.
pub const IMAGE_RESOURCE_TIMEOUT_PARAM: &'static str = "agent.image_resource_timeout_secs";

/// The timeout of a request to the data hub that nothing else sets.
pub const DEFAULT_CDH_TTRPC_TIMEOUT_SECS: u64 = 50;

/// A span of time: whole seconds, and less than a second in nanoseconds.
#[derive(Clone, Copy, PartialEq, Eq, Debug, Structural)]
pub struct RequestTimeout {
    secs: u64,
    nanos: u32,
}

impl RequestTimeout {
    #[verifier::type_invariant]
    spec fn normal(self) -> bool {
        self.nanos < NANOS_PER_SEC
    }

    /// The span in nanoseconds.
    pub closed spec fn view(&self) -> nat {
        (self.secs * NANOS_PER_SEC + self.nanos) as nat
    }

    pub fn from_secs(secs: u64) -> (r: Self)
        ensures
            r@ == secs * NANOS_PER_SEC,
    {
        RequestTimeout { secs, nanos: 0 }
    }

    /// The span of `secs` seconds and `nanos` nanoseconds.
    pub fn new(secs: u64, nanos: u32) -> (r: Self)
        requires
            nanos < NANOS_PER_SEC,
        ensures
            r@ == secs * NANOS_PER_SEC + nanos,
    {
        RequestTimeout { secs, nanos }
    }

    /// The whole seconds of the span.
    pub fn as_secs(&self) -> (r: u64)
        ensures
            r == self@ / (NANOS_PER_SEC as nat),
    {
        proof {
            use_type_invariant(self);
        }
        self.secs
    }
}

/// A count of seconds that is not zero.
#[derive(Clone, Copy, PartialEq, Eq, Debug, Structural)]
pub struct NonZeroSeconds {
    secs: u32,
}

impl NonZeroSeconds {
    #[verifier::type_invariant]
    spec fn nonzero(self) -> bool {
        self.secs != 0
    }

    pub closed spec fn view(&self) -> u32 {
        self.secs
    }

    /// The count `secs`, unless it is zero.
    pub fn new(secs: u32) -> (r: Option<Self>)
        ensures
            match r {
                Some(n) => n@ == secs && secs != 0,
                None => secs == 0,
            },
    {
        if secs == 0 {
            None
        } else {
            Some(NonZeroSeconds { secs })
        }
    }

    pub fn get(&self) -> (r: u32)
        ensures
            r == self@,
            r != 0,
    {
        proof {
            use_type_invariant(self);
        }
        self.secs
    }
}

/// The digits of a numeral: what follows an optional plus sign.
pub open spec fn numeral_digits(s: Seq<char>) -> Seq<char> {
    if s.len() > 0 && s[0] == '+' {
        s.skip(1)
    } else {
        s
    }
}

pub open spec fn is_digit(c: char) -> bool {
    '0' <= c && c <= '9'
}

/// The number that a sequence of decimal digits denotes.
pub open spec fn decimal(digits: Seq<char>) -> nat
    decreases digits.len(),
{
    if digits.len() == 0 {
        0
    } else {
        decimal(digits.drop_last()) * 10 + ((digits.last() as int - '0' as int) as nat)
    }
}

/// The number that `s` denotes, where `s` is a decimal numeral of a number from
/// 1 to the largest `u32`.
pub open spec fn nonzero_u32(s: Seq<char>) -> Option<u32> {
    let digits = numeral_digits(s);
    if digits.len() > 0 && (forall|i: int| 0 <= i < digits.len() ==> is_digit(#[trigger] digits[i]))
        && 0 < decimal(digits) <= u32::MAX {
        Some(decimal(digits) as u32)
    } else {
        None
    }
}

/// The text of the error with which std refuses to read `s` as a nonzero `u32`.
pub uninterp spec fn nonzero_u32_error(s: Seq<char>) -> Seq<char>;

/// `str::parse::<NonZeroU32>`: reads an optional plus sign followed by only
/// decimal digits, and refuses everything else, zero, and what does not fit.
/// What the text of its error says is not stated, only that it depends on the
/// text that was read.
#[verifier::external_body]
fn std_parse_nonzero_u32(s: &str) -> (r: Result<u32, String>)
    ensures
        match r {
            Ok(n) => nonzero_u32(s@) == Some(n),
            Err(e) => nonzero_u32(s@) is None && e@ == nonzero_u32_error(s@),
        },
{
    match s.parse::<std::num::NonZeroU32>() {
        Ok(n) => Ok(n.get()),
        Err(e) => Err(e.to_string()),
    }
}

/// Reads a count of seconds that is not zero.
pub fn parse_nonzero_seconds(s: &str) -> (r: Result<NonZeroSeconds, String>)
    ensures
        match r {
            Ok(n) => nonzero_u32(s@) == Some(n@),
            Err(e) => nonzero_u32(s@) is None && e@ == nonzero_u32_error(s@),
        },
{
    match std_parse_nonzero_u32(s) {
        Ok(n) => Ok(NonZeroSeconds { secs: n }),
        Err(e) => Err(e),
    }
}

/// The value that a kernel command line item gives to the image resource
/// timeout parameter.
pub open spec fn timeout_item(item: Seq<char>) -> Option<Seq<char>> {
    text::after_prefix(item, IMAGE_RESOURCE_TIMEOUT_PARAM@ + seq!['='])
}

/// The last value that a list of kernel command line items gives to the image
/// resource timeout parameter.
pub open spec fn last_timeout_item(items: Seq<Seq<char>>) -> Option<Seq<char>>
    decreases items.len(),
{
    if items.len() == 0 {
        None
    } else if timeout_item(items.last()) is Some {
        timeout_item(items.last())
    } else {
        last_timeout_item(items.drop_last())
    }
}

/// The timeout that a kernel command line sets: the last value of the parameter,
/// where it is a count of seconds that is not zero.
pub open spec fn kernel_timeout(cmdline: Seq<char>) -> Option<u32> {
    match last_timeout_item(text::words(cmdline)) {
        Some(value) => nonzero_u32(value),
        None => None,
    }
}

/// The image resource timeout on a kernel command line.
pub fn kernel_image_resource_timeout(cmdline: &str) -> (r: Option<NonZeroSeconds>)
    ensures
        match r {
            Some(n) => kernel_timeout(cmdline@) == Some(n@),
            None => kernel_timeout(cmdline@) is None,
        },
{
    let items = text::split_words(cmdline);
    let prefix = text::joined(IMAGE_RESOURCE_TIMEOUT_PARAM, "=");
    proof {
        reveal_strlit("=");
        assert("="@ =~= seq!['=']);
    }
    let ghost all = text::texts(items@);
    let mut i: usize = items.len();
    assert(all.take(i as int) =~= all);
    while i > 0
        invariant
            i <= items.len(),
            all == text::texts(items@),
            all == text::words(cmdline@),
            prefix@ == IMAGE_RESOURCE_TIMEOUT_PARAM@ + seq!['='],
            last_timeout_item(all) == last_timeout_item(all.take(i as int)),
        decreases i,
    {
        i = i - 1;
        assert(all.take(i + 1).drop_last() =~= all.take(i as int));
        assert(all.take(i + 1).last() == items[i as int]@);
        if let Some(value) = text::strip(items[i].as_str(), prefix.as_str()) {
            return match parse_nonzero_seconds(value) {
                Ok(n) => Some(n),
                Err(_) => None,
            };
        }
    }
    None
}

/// The timeout of a request to the data hub, and where it comes from: the
/// command line of the program, then that of the kernel, then the default.
pub fn select_cdh_request_timeout(
    cli_timeout: Option<NonZeroSeconds>,
    cmdline: Option<&str>,
) -> (r: (RequestTimeout, &'static str))
    ensures
        match cli_timeout {
            Some(secs) => r.0@ == secs@ * NANOS_PER_SEC && r.1@ == "cli"@,
            None => match selected_from_kernel(cmdline) {
                Some(secs) => r.0@ == secs * NANOS_PER_SEC && r.1@ == "kernel"@,
                None => r.0@ == DEFAULT_CDH_TTRPC_TIMEOUT_SECS * NANOS_PER_SEC && r.1@
                    == "default"@,
            },
        },
{
    if let Some(timeout) = cli_timeout {
        return (RequestTimeout::from_secs(timeout.get() as u64), "cli");
    }
    if let Some(cmdline) = cmdline {
        if let Some(timeout) = kernel_image_resource_timeout(cmdline) {
            return (RequestTimeout::from_secs(timeout.get() as u64), "kernel");
        }
    }
    (RequestTimeout::from_secs(DEFAULT_CDH_TTRPC_TIMEOUT_SECS), "default")
}

/// The timeout that the kernel command line sets, where there is one.
pub open spec fn selected_from_kernel(cmdline: Option<&str>) -> Option<u32> {
    match cmdline {
        Some(cmdline) => kernel_timeout(cmdline@),
        None => None,
    }
}

/// The value that 64 bits of two's complement hold of `n`.
pub open spec fn low_64_bits(n: int) -> int {
    (n + 0x8000_0000_0000_0000) % 0x1_0000_0000_0000_0000 - 0x8000_0000_0000_0000
}

/// What a request carries: its timeout in nanoseconds, zero for none.
#[derive(Clone, Copy, PartialEq, Eq, Debug, Structural)]
pub struct RequestContext {
    pub timeout_nano: i64,
}

/// The `timeout_nano` of `ttrpc::context::with_duration` for a duration of `secs`
/// seconds and `nanos` nanoseconds: the whole duration in nanoseconds, of which
/// an `i64` keeps the low bits.
#[verifier::external_body]
fn ttrpc_timeout_nano(secs: u64, nanos: u32) -> (r: i64)
    requires
        nanos < NANOS_PER_SEC,
    ensures
        r == low_64_bits(secs * NANOS_PER_SEC + nanos),
{
    ttrpc::context::with_duration(std::time::Duration::new(secs, nanos)).timeout_nano
}

/// The `timeout_nano` of `ttrpc::context::with_timeout`: the nanoseconds that it is
/// given.
#[verifier::external_body]
fn ttrpc_given_nano(nanos: i64) -> (r: i64)
    ensures
        r == nanos,
{
    ttrpc::context::with_timeout(nanos).timeout_nano
}

/// The context of a request with a timeout in nanoseconds.
pub(crate) fn context_with_nanos(nanos: i64) -> (r: RequestContext)
    ensures
        r.timeout_nano == nanos,
{
    RequestContext { timeout_nano: ttrpc_given_nano(nanos) }
}

/// The context of a request with the given timeout.
pub(crate) fn context_with_timeout(timeout: RequestTimeout) -> (r: RequestContext)
    ensures
        r.timeout_nano == low_64_bits(timeout@ as int),
{
    proof {
        use_type_invariant(&timeout);
    }
    RequestContext { timeout_nano: ttrpc_timeout_nano(timeout.secs, timeout.nanos) }
}

proof fn lemma_items_without_the_parameter(items: Seq<Seq<char>>, more: Seq<Seq<char>>)
    requires
        forall|i: int| 0 <= i < more.len() ==> timeout_item(#[trigger] more[i]) is None,
    ensures
        last_timeout_item(items + more) == last_timeout_item(items),
    decreases more.len(),
{
    if more.len() == 0 {
        assert(items + more =~= items);
    } else {
        assert((items + more).last() == more[more.len() - 1]);
        assert((items + more).drop_last() =~= items + more.drop_last());
        lemma_items_without_the_parameter(items, more.drop_last());
    }
}

/// Of the values that a kernel command line gives to the parameter the last one
/// counts: what stands before it has no influence, and neither has what stands
/// behind it without naming the parameter. The item may start or end the line, and
/// any separator may stand before and after it. A last value that is no count of
/// seconds sets no timeout, even where an earlier one is.
pub proof fn law_last_kernel_value_counts(before: Seq<char>, value: Seq<char>, after: Seq<char>)
    requires
        text::ends_apart(before),
        text::starts_apart(after),
        forall|i: int| 0 <= i < value.len() ==> !text::is_separator(value[i]),
        forall|i: int|
            0 <= i < text::words(after).len() ==> timeout_item(#[trigger] text::words(after)[i])
                is None,
    ensures
        kernel_timeout(before + (IMAGE_RESOURCE_TIMEOUT_PARAM@ + seq!['='] + value) + after)
            == nonzero_u32(value),
{
    let name = IMAGE_RESOURCE_TIMEOUT_PARAM@ + seq!['='];
    let item = name + value;
    reveal_strlit("agent.image_resource_timeout_secs");
    assert forall|i: int| 0 <= i < item.len() implies !text::is_separator(item[i]) by {
        if i < IMAGE_RESOURCE_TIMEOUT_PARAM@.len() {
            assert(item[i] == "agent.image_resource_timeout_secs"@[i]);
        } else if i >= name.len() {
            assert(item[i] == value[i - name.len()]);
        }
    }
    text::lemma_word_in_between(before, item, after);
    let first = text::words(before);
    lemma_items_without_the_parameter(first.push(item), text::words(after));
    assert(item.take(name.len() as int) =~= name);
    assert(item.skip(name.len() as int) =~= value);
    assert(first.push(item).last() == item);
}

/// No timeout that is chosen is ever zero, which would mean none at all, and each
/// is carried whole in the context of a request.
pub proof fn law_chosen_timeout_is_carried_whole(secs: u32)
    requires
        secs != 0,
    ensures
        low_64_bits(secs * NANOS_PER_SEC) == secs * NANOS_PER_SEC,
        0 < secs * NANOS_PER_SEC <= i64::MAX,
        low_64_bits(DEFAULT_CDH_TTRPC_TIMEOUT_SECS * NANOS_PER_SEC)
            == DEFAULT_CDH_TTRPC_TIMEOUT_SECS * NANOS_PER_SEC,
{
}

/// A count of seconds that is read is never zero.
pub proof fn law_zero_seconds_are_refused(s: Seq<char>)
    requires
        nonzero_u32(s) is Some,
    ensures
        nonzero_u32(s)->0 > 0,
{
}

/// The decimal digit of a number below ten.
pub open spec fn digit_of(n: nat) -> char {
    ('0' as int + n) as char
}

/// The decimal numeral of a number, without leading zeros.
pub open spec fn numeral(n: nat) -> Seq<char>
    decreases n,
{
    if n < 10 {
        seq![digit_of(n)]
    } else {
        numeral(n / 10).push(digit_of(n % 10))
    }
}

proof fn lemma_numeral(n: nat)
    ensures
        numeral(n).len() > 0,
        forall|i: int| 0 <= i < numeral(n).len() ==> is_digit(#[trigger] numeral(n)[i]),
        decimal(numeral(n)) == n,
    decreases n,
{
    if n < 10 {
        assert(numeral(n).drop_last() =~= Seq::<char>::empty());
        assert(numeral(n).last() == digit_of(n));
        assert(decimal(Seq::<char>::empty()) == 0);
    } else {
        lemma_numeral(n / 10);
        assert(numeral(n).drop_last() =~= numeral(n / 10));
        assert(numeral(n).last() == digit_of(n % 10));
        assert forall|i: int| 0 <= i < numeral(n).len() implies is_digit(
            #[trigger] numeral(n)[i],
        ) by {
            if i < numeral(n / 10).len() {
                assert(numeral(n)[i] == numeral(n / 10)[i]);
            }
        }
    }
}

/// A count of seconds is read as the number that was written, for every number from one
/// to the largest, with or without a plus sign; zero and larger numbers are not read.
pub proof fn law_numeral_is_read_back(n: nat)
    ensures
        0 < n <= u32::MAX ==> nonzero_u32(numeral(n)) == Some(n as u32),
        0 < n <= u32::MAX ==> nonzero_u32(seq!['+'] + numeral(n)) == Some(n as u32),
        n == 0 || n > u32::MAX ==> nonzero_u32(numeral(n)) is None,
{
    lemma_numeral(n);
    assert(is_digit(numeral(n)[0]));
    assert(numeral_digits(numeral(n)) == numeral(n));
    assert((seq!['+'] + numeral(n)).skip(1) =~= numeral(n));
    assert(numeral_digits(seq!['+'] + numeral(n)) == numeral(n));
}

/// What holds anything but digits behind an optional plus sign, or no digit, is no
/// count of seconds.
pub proof fn law_other_texts_are_no_seconds(s: Seq<char>, i: int)
    requires
        s.len() == 0 || s == seq!['+'] || (0 <= i < s.len() && !is_digit(s[i]) && (i > 0 || s[i]
            != '+')),
    ensures
        nonzero_u32(s) is None,
{
    let digits = numeral_digits(s);
    if s.len() > 0 && s != seq!['+'] {
        if s[0] == '+' {
            assert(digits[i - 1] == s[i]);
        } else {
            assert(digits[i] == s[i]);
        }
    } else if s.len() > 0 {
        assert(digits =~= Seq::<char>::empty());
    }
}

/// Without a timeout on the command line of the program, the last value on that of the
/// kernel is the one that is chosen, for every number of seconds, wherever it stands
/// and whatever stands around it.
pub proof fn law_kernel_value_is_chosen(
    before: Seq<char>,
    n: nat,
    after: Seq<char>,
    cmdline: &str,
    r: (RequestTimeout, &'static str),
)
    requires
        0 < n <= u32::MAX,
        text::ends_apart(before),
        text::starts_apart(after),
        forall|i: int|
            0 <= i < text::words(after).len() ==> !"agent.image_resource_timeout_secs="@.is_prefix_of(
                #[trigger] text::words(after)[i],
            ),
        cmdline@ == before + ("agent.image_resource_timeout_secs="@ + numeral(n)) + after,
        call_ensures(select_cdh_request_timeout, (None, Some(cmdline)), r),
    ensures
        r.0@ == n * 1_000_000_000,
        r.1@ == "kernel"@,
{
    lemma_numeral(n);
    law_numeral_is_read_back(n);
    lemma_parameter();
    let name = IMAGE_RESOURCE_TIMEOUT_PARAM@ + seq!['='];
    assert forall|i: int| 0 <= i < numeral(n).len() implies !text::is_separator(numeral(n)[i]) by {
        assert(is_digit(numeral(n)[i]));
    }
    law_last_kernel_value_counts(before, numeral(n), after);
}

proof fn lemma_parameter()
    ensures
        IMAGE_RESOURCE_TIMEOUT_PARAM@ + seq!['='] == "agent.image_resource_timeout_secs="@,
{
    reveal_strlit("agent.image_resource_timeout_secs");
    reveal_strlit("agent.image_resource_timeout_secs=");
    assert(IMAGE_RESOURCE_TIMEOUT_PARAM@ + seq!['='] =~= "agent.image_resource_timeout_secs="@);
}

/// A timeout on the command line of the program comes before that of the kernel, and
/// where neither sets one the timeout is fifty seconds: without a kernel command line,
/// where none of its items names the parameter, and where the last that does gives it
/// no count of seconds.
pub proof fn law_choice_without_a_kernel_value(
    cli: NonZeroSeconds,
    before: Seq<char>,
    value: Seq<char>,
    after: Seq<char>,
    cmdline: &str,
    r: (RequestTimeout, &'static str),
)
    ensures
        call_ensures(select_cdh_request_timeout, (Some(cli), Some(cmdline)), r) ==> r.0@ == cli@
            * 1_000_000_000 && r.1@ == "cli"@,
        call_ensures(select_cdh_request_timeout, (Some(cli), None), r) ==> r.0@ == cli@
            * 1_000_000_000 && r.1@ == "cli"@,
        call_ensures(select_cdh_request_timeout, (None, None), r) ==> r.0@ == 50_000_000_000
            && r.1@ == "default"@,
        call_ensures(select_cdh_request_timeout, (None, Some(cmdline)), r) && (forall|i: int|
            0 <= i < text::words(cmdline@).len()
                ==> !"agent.image_resource_timeout_secs="@.is_prefix_of(
                #[trigger] text::words(cmdline@)[i],
            )) ==> r.0@ == 50_000_000_000 && r.1@ == "default"@,
        call_ensures(select_cdh_request_timeout, (None, Some(cmdline)), r) && cmdline@ == before + (
        "agent.image_resource_timeout_secs="@ + value) + after && text::ends_apart(before)
            && text::starts_apart(after) && (forall|i: int|
            0 <= i < value.len() ==> !text::is_separator(value[i])) && (forall|i: int|
            0 <= i < text::words(after).len()
                ==> !"agent.image_resource_timeout_secs="@.is_prefix_of(
                #[trigger] text::words(after)[i],
            )) && nonzero_u32(value) is None ==> r.0@ == 50_000_000_000 && r.1@ == "default"@,
{
    lemma_parameter();
    let all = text::words(cmdline@);
    if forall|i: int|
        0 <= i < all.len() ==> !"agent.image_resource_timeout_secs="@.is_prefix_of(
            #[trigger] all[i],
        ) {
        assert forall|i: int| 0 <= i < all.len() implies timeout_item(#[trigger] all[i]) is None by {
            assert(!"agent.image_resource_timeout_secs="@.is_prefix_of(all[i]));
        }
        lemma_items_without_the_parameter(Seq::empty(), all);
        assert(Seq::<Seq<char>>::empty() + all =~= all);
    }
    if cmdline@ == before + ("agent.image_resource_timeout_secs="@ + value) + after
        && text::ends_apart(before) && text::starts_apart(after) && (forall|i: int|
        0 <= i < value.len() ==> !text::is_separator(value[i])) && (forall|i: int|
        0 <= i < text::words(after).len() ==> !"agent.image_resource_timeout_secs="@.is_prefix_of(
            #[trigger] text::words(after)[i],
        )) {
        assert forall|i: int| 0 <= i < text::words(after).len() implies timeout_item(
            #[trigger] text::words(after)[i],
        ) is None by {
            assert(!"agent.image_resource_timeout_secs="@.is_prefix_of(text::words(after)[i]));
        }
        law_last_kernel_value_counts(before, value, after);
    }
}

/// A context keeps of a timeout what 64 bits hold: it differs from it by a multiple of
/// what they can count, and not at all where it fits.
pub proof fn law_context_keeps_what_fits(n: int)
    ensures
        -0x8000_0000_0000_0000 <= low_64_bits(n) < 0x8000_0000_0000_0000,
        (n - low_64_bits(n)) % 0x1_0000_0000_0000_0000 == 0,
        -0x8000_0000_0000_0000 <= n < 0x8000_0000_0000_0000 ==> low_64_bits(n) == n,
        NANOS_PER_SEC == 1_000_000_000,
{
}

proof fn lemma_decimal_of_two_parts(zeros: Seq<char>, digits: Seq<char>)
    requires
        forall|i: int| 0 <= i < zeros.len() ==> zeros[i] == '0',
    ensures
        decimal(zeros + digits) == decimal(digits),
    decreases zeros.len() + digits.len(),
{
    if digits.len() > 0 {
        assert((zeros + digits).drop_last() =~= zeros + digits.drop_last());
        assert((zeros + digits).last() == digits.last());
        lemma_decimal_of_two_parts(zeros, digits.drop_last());
    } else if zeros.len() > 0 {
        assert(zeros + digits =~= zeros);
        assert(zeros.drop_last() + digits =~= zeros.drop_last());
        lemma_decimal_of_two_parts(zeros.drop_last(), digits);
    } else {
        assert(zeros + digits =~= digits);
    }
}

/// Zeros in front of a count of seconds change nothing, however many there are.
pub proof fn law_leading_zeros_change_nothing(zeros: Seq<char>, n: nat)
    requires
        forall|i: int| 0 <= i < zeros.len() ==> zeros[i] == '0',
    ensures
        0 < n <= u32::MAX ==> nonzero_u32(zeros + numeral(n)) == Some(n as u32),
        n == 0 || n > u32::MAX ==> nonzero_u32(zeros + numeral(n)) is None,
{
    lemma_numeral(n);
    let s = zeros + numeral(n);
    lemma_decimal_of_two_parts(zeros, numeral(n));
    assert forall|i: int| 0 <= i < s.len() implies is_digit(#[trigger] s[i]) by {
        if i >= zeros.len() {
            assert(s[i] == numeral(n)[i - zeros.len()]);
        }
    }
    assert(is_digit(s[0]));
    assert(numeral_digits(s) == s);
}

} // verus!
