use vstd::prelude::*;

verus! {

/// Walks the positions `[i % w, i / w]` of a `w` by `h` grid for `i` from `0` up to,
/// and not including, `w * h - 1`.
pub struct SizeIterator {
    size: [u32; 2],
    total: u32,
    iter: u32,
}

impl SizeIterator {
    /// The grid's width.
    pub closed spec fn spec_width(&self) -> u32 {
        self.size[0]
    }

    /// The grid's height.
    pub closed spec fn spec_height(&self) -> u32 {
        self.size[1]
    }

    /// The index of the next position.
    pub closed spec fn spec_index(&self) -> u32 {
        self.iter
    }

    /// The number of grid cells.
    pub closed spec fn spec_total(&self) -> u32 {
        self.total
    }

    pub closed spec fn wf(&self) -> bool {
        self.total as int == self.size[0] as int * self.size[1] as int
    }

    pub fn new(size: &[u32; 2]) -> (r: SizeIterator)
        requires
            size[0] as int * size[1] as int <= u32::MAX,
        ensures
            r.wf(),
            r.spec_width() == size[0],
            r.spec_height() == size[1],
            r.spec_index() == 0,
            r.spec_total() as int == size[0] as int * size[1] as int,
    {
        let w: u32 = size[0];
        let h: u32 = size[1];
        let total: u32 = w * h;
        SizeIterator { size: [w, h], total, iter: 0 }
    }

    /// The next position, or `None` once the index reaches `w * h - 1`.
    pub fn next(&mut self) -> (r: Option<[u32; 2]>)
        requires
            old(self).wf(),
        ensures
            final(self).wf(),
            final(self).spec_width() == old(self).spec_width(),
            final(self).spec_height() == old(self).spec_height(),
            final(self).spec_total() == old(self).spec_total(),
            old(self).spec_index() + 1 >= old(self).spec_total() ==> r is None
                && final(self).spec_index() == old(self).spec_index(),
            old(self).spec_index() + 1 < old(self).spec_total() ==> r is Some
                && r->Some_0@ == seq![
                old(self).spec_index() % old(self).spec_width(),
                old(self).spec_index() / old(self).spec_width(),
            ] && final(self).spec_index() == old(self).spec_index() + 1,
    {
        if self.total == 0 || self.iter >= self.total - 1 {
            return None;
        }
        let w: u32 = self.size[0];
        let h: u32 = self.size[1];
        assert(w != 0) by (nonlinear_arith)
            requires
                self.total as int == w as int * h as int,
                self.total > 0,
        ;
        let ret = [self.iter % w, self.iter / w];
        self.iter = self.iter + 1;
        assert(ret@ =~= seq![ret[0], ret[1]]);
        Some(ret)
    }
}

/// The number of decimal digits of `n`.
pub open spec fn spec_decimal_digits(n: nat) -> nat
    decreases n,
{
    if n < 10 {
        1
    } else {
        1 + spec_decimal_digits(n / 10)
    }
}

/// The absolute value of an integer.
pub open spec fn spec_abs(x: int) -> nat {
    if x < 0 {
        (-x) as nat
    } else {
        x as nat
    }
}

/// Counting the decimal digits of a number, sign not included.
pub trait Digits {
    spec fn spec_digits(&self) -> nat;

    fn digits(&self) -> (r: usize)
        ensures
            r == self.spec_digits(),
    ;
}

impl Digits for i64 {
    open spec fn spec_digits(&self) -> nat {
        spec_decimal_digits(spec_abs(*self as int))
    }

    fn digits(&self) -> (r: usize) {
        let x: i64 = *self;
        let mut m: u64 = if x < 0 {
            ((-(x + 1)) as u64) + 1
        } else {
            x as u64
        };
        assert(m as nat == spec_abs(x as int));
        proof {
            lemma_digits_bound(m as nat);
        }
        let mut ret: usize = 1;
        while m >= 10
            invariant
                1 <= ret,
                ret + spec_decimal_digits(m as nat) == 1 + spec_decimal_digits(spec_abs(x as int)),
                spec_decimal_digits(spec_abs(x as int)) <= 20,
            decreases m,
        {
            proof {
                lemma_digits_bound((m / 10) as nat);
            }
            m = m / 10;
            ret = ret + 1;
        }
        ret
    }
}

/// Ten to the power `k`.
pub open spec fn spec_pow10(k: nat) -> nat
    decreases k,
{
    if k == 0 {
        1
    } else {
        10 * spec_pow10((k - 1) as nat)
    }
}

proof fn lemma_digits_below_pow10(n: nat, k: nat)
    requires
        k >= 1,
        n < spec_pow10(k),
    ensures
        1 <= spec_decimal_digits(n) <= k,
    decreases k,
{
    if n >= 10 {
        let p = spec_pow10((k - 1) as nat);
        assert(n / 10 < p) by (nonlinear_arith)
            requires
                n < 10 * p,
        ;
        if k == 1 {
            assert(spec_pow10(1) == 10) by {
                reveal_with_fuel(spec_pow10, 2);
            }
        } else {
            lemma_digits_below_pow10(n / 10, (k - 1) as nat);
        }
    }
}

proof fn lemma_digits_bound(n: nat)
    requires
        n <= u64::MAX,
    ensures
        1 <= spec_decimal_digits(n) <= 20,
{
    reveal_with_fuel(spec_pow10, 21);
    assert(spec_pow10(20) == 100000000000000000000nat);
    lemma_digits_below_pow10(n, 20);
}

/// The first queue family, given as (supports compute, supports graphics), that
/// supports both.
pub fn select_queue_family(families: &[(bool, bool)]) -> (r: Option<usize>)
    ensures
        match r {
            Some(i) => i < families@.len() && families@[i as int].0 && families@[i as int].1
                && forall|j: int| 0 <= j < i ==> !(families@[j].0 && families@[j].1),
            None => forall|j: int|
                0 <= j < families@.len() ==> !(families@[j].0 && families@[j].1),
        },
{
    let mut i: usize = 0;
    while i < families.len()
        invariant
            i <= families@.len(),
            forall|j: int| 0 <= j < i ==> !(families@[j].0 && families@[j].1),
        decreases families@.len() - i,
    {
        if families[i].0 && families[i].1 {
            return Some(i);
        }
        i = i + 1;
    }
    None
}

/// Severities that a device debug message may carry.
#[derive(Debug, Clone, Copy, PartialEq, Eq, Structural)]
pub struct MessageSeverity {
    pub error: bool,
    pub warning: bool,
    pub information: bool,
    pub verbose: bool,
}

/// Kinds that a device debug message may carry.
#[derive(Debug, Clone, Copy, PartialEq, Eq, Structural)]
pub struct MessageType {
    pub general: bool,
    pub validation: bool,
    pub performance: bool,
}

#[derive(Debug, Clone, Copy, PartialEq, Eq, Structural)]
pub enum Severity {
    Error,
    Warning,
    Information,
    Verbose,
}

#[derive(Debug, Clone, Copy, PartialEq, Eq, Structural)]
pub enum MessageKind {
    General,
    Validation,
    Performance,
}

/// How a debug message is reported: general verbose chatter is dropped; otherwise it is
/// labelled with its most severe severity and its first kind among general, validation,
/// performance.
pub open spec fn spec_classify(ty: MessageType, severity: MessageSeverity) -> Option<
    (Severity, MessageKind),
> {
    if ty.general && severity.verbose {
        None
    } else {
        let s = if severity.error {
            Severity::Error
        } else if severity.warning {
            Severity::Warning
        } else if severity.information {
            Severity::Information
        } else {
            Severity::Verbose
        };
        let k = if ty.general {
            MessageKind::General
        } else if ty.validation {
            MessageKind::Validation
        } else {
            MessageKind::Performance
        };
        Some((s, k))
    }
}

/// Labels a debug message for the log, or `None` when it is not worth reporting. A
/// message that is reported carries at least one severity and one kind.
pub fn classify_message(ty: MessageType, severity: MessageSeverity) -> (r: Option<
    (Severity, MessageKind),
>)
    requires
        (ty.general && severity.verbose) || ((severity.error || severity.warning
            || severity.information || severity.verbose) && (ty.general || ty.validation
            || ty.performance)),
    ensures
        r == spec_classify(ty, severity),
{
    if ty.general && severity.verbose {
        return None;
    }
    let s = if severity.error {
        Severity::Error
    } else if severity.warning {
        Severity::Warning
    } else if severity.information {
        Severity::Information
    } else {
        Severity::Verbose
    };
    let k = if ty.general {
        MessageKind::General
    } else if ty.validation {
        MessageKind::Validation
    } else {
        MessageKind::Performance
    };
    Some((s, k))
}

} // verus!
