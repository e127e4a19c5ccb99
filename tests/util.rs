use vkfft::util::{
    classify_message, select_queue_family, Digits, MessageKind, MessageSeverity, MessageType,
    Severity, SizeIterator,
};

#[test]
fn check_digits() {
    assert_eq!(100i64.digits(), 3);
    assert_eq!(1000i64.digits(), 4);
    assert_eq!((-1000i64).digits(), 4);
    assert_eq!((-1i64).digits(), 1);
    assert_eq!(0i64.digits(), 1);
    assert_eq!((-9.6f32.floor() as i64).digits(), 1)
}

#[test]
fn digits_at_the_extremes() {
    assert_eq!(9i64.digits(), 1);
    assert_eq!(10i64.digits(), 2);
    assert_eq!(i64::MAX.digits(), 19);
    assert_eq!(i64::MIN.digits(), 19);
}

#[test]
fn size_iterator_walks_all_but_the_last_cell() {
    let size = [3u32, 2u32];
    let mut it = SizeIterator::new(&size);
    let mut seen = Vec::new();
    while let Some(p) = it.next() {
        seen.push(p);
    }
    assert_eq!(seen, vec![[0, 0], [1, 0], [2, 0], [0, 1], [1, 1]]);
    assert_eq!(it.next(), None);
}

#[test]
fn size_iterator_on_empty_grid_yields_nothing() {
    let size = [0u32, 4u32];
    let mut it = SizeIterator::new(&size);
    assert_eq!(it.next(), None);
}

#[test]
fn first_compute_and_graphics_family_is_chosen() {
    assert_eq!(select_queue_family(&[(true, false), (false, true), (true, true), (true, true)]), Some(2));
    assert_eq!(select_queue_family(&[(true, false), (false, true)]), None);
    assert_eq!(select_queue_family(&[]), None);
}

fn sev(error: bool, warning: bool, information: bool, verbose: bool) -> MessageSeverity {
    MessageSeverity { error, warning, information, verbose }
}

fn ty(general: bool, validation: bool, performance: bool) -> MessageType {
    MessageType { general, validation, performance }
}

#[test]
fn general_verbose_messages_are_dropped() {
    assert_eq!(classify_message(ty(true, false, false), sev(false, false, false, true)), None);
}

#[test]
fn messages_take_their_most_severe_label() {
    assert_eq!(
        classify_message(ty(false, true, true), sev(false, true, true, false)),
        Some((Severity::Warning, MessageKind::Validation))
    );
    assert_eq!(
        classify_message(ty(false, false, true), sev(true, false, false, true)),
        Some((Severity::Error, MessageKind::Performance))
    );
    assert_eq!(
        classify_message(ty(true, false, false), sev(false, false, true, false)),
        Some((Severity::Information, MessageKind::General))
    );
    assert_eq!(
        classify_message(ty(false, true, false), sev(false, false, false, true)),
        Some((Severity::Verbose, MessageKind::Validation))
    );
}
