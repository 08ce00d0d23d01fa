use market_core::window::{DynamicWindow, StaticWindow, Window};

#[test]
fn test_static_window() {
    let mut win = StaticWindow::<i32, 2>::new(|_| 0);

    let (one, prev) = win.push(1);
    assert_eq!(1, one);
    assert_eq!(0, prev);
    assert_eq!(1, *win.newest());

    win.push(2);
    let (three, one) = win.push(3);
    assert_eq!(3, three);
    assert_eq!(1, one);
    assert_eq!(3, *win.newest());
}

#[test]
fn test_static_window_iter() {
    let mut win = StaticWindow::<i32, 3>::new(|_| 0);
    win.push(3);
    win.push(2);
    win.push(1);

    assert_eq!(3, win.iter().count());
    assert_eq!(Some(&3), win.iter().last());

    let mut iter = win.iter();
    assert_eq!((3, Some(3)), iter.size_hint());
    assert_eq!(Some(&1), iter.next());

    assert_eq!((2, Some(2)), iter.size_hint());
    assert_eq!(Some(&2), iter.next());

    assert_eq!((1, Some(1)), iter.size_hint());
    assert_eq!(Some(&3), iter.next());

    assert_eq!((0, Some(0)), iter.size_hint());
    assert!(iter.next().is_none());
}

#[test]
fn test_dynamic_window() {
    let mut win = DynamicWindow::new(|_| 0, 2);

    let (one, prev) = win.push(1);
    assert_eq!(1, one);
    assert_eq!(0, prev);
    assert_eq!(1, *win.newest());

    win.push(2);
    let (three, one) = win.push(3);
    assert_eq!(3, three);
    assert_eq!(1, one);
    assert_eq!(3, *win.newest());
}

#[test]
fn test_dynamic_window_iter() {
    let mut win = DynamicWindow::new(|_| 0, 3);
    win.push(3);
    win.push(2);
    win.push(1);

    assert_eq!(3, win.iter().count());
    assert_eq!(Some(&3), win.iter().last());

    let mut iter = win.iter();
    assert_eq!((3, Some(3)), iter.size_hint());
    assert_eq!(Some(&1), iter.next());

    assert_eq!((2, Some(2)), iter.size_hint());
    assert_eq!(Some(&2), iter.next());

    assert_eq!((1, Some(1)), iter.size_hint());
    assert_eq!(Some(&3), iter.next());

    assert_eq!((0, Some(0)), iter.size_hint());
    assert!(iter.next().is_none());
}

#[test]
fn test_window_eviction_scenario() {
    // A window of capacity 2 populated with zeros: each push returns the
    // value written and the value displaced. The first two pushes
    // displace the two initial zeros; from then on each push displaces
    // the value pushed exactly two pushes earlier.
    let mut win = DynamicWindow::new(|_| 0, 2);

    let (written, evicted) = win.push(1);
    assert_eq!((1, 0), (written, evicted));

    let (written, evicted) = win.push(2);
    assert_eq!((2, 0), (written, evicted));

    let (written, evicted) = win.push(3);
    assert_eq!((3, 1), (written, evicted));

    let (written, evicted) = win.push(4);
    assert_eq!((4, 2), (written, evicted));

    assert_eq!(4, *win.newest());
}

#[test]
fn test_window_generator_population() {
    let win = DynamicWindow::new(|i| i as i32 * 10, 4);
    // The generator runs once per slot, in order.
    assert_eq!(vec![0, 10, 20, 30], win.iter_unordered().clone());
    assert_eq!(0, *win.oldest());
    assert_eq!(30, *win.newest());
}

#[test]
fn test_window_oldest_tracks_displacement() {
    let mut win = DynamicWindow::new(|i| i as i32, 3);
    for v in 10..20 {
        let before = *win.oldest();
        let (_, displaced) = win.push(v);
        assert_eq!(before, displaced);
    }
    // After pushes 10..20 into capacity 3, the oldest is 17: the value
    // pushed exactly three pushes before the end.
    assert_eq!(17, *win.oldest());
    assert_eq!(19, *win.newest());
}

#[test]
fn test_window_period_reporting() {
    let win = DynamicWindow::new(|_| 0u64, 5);
    assert_eq!(5, win.period());
    let swin = StaticWindow::<u64, 7>::new(|_| 0);
    assert_eq!(7, swin.period());
}

#[test]
fn test_window_iter_reverse_of_push_order() {
    let mut win = DynamicWindow::new(|_| 0, 4);
    for v in [5, 6, 7, 8, 9] {
        win.push(v);
    }
    let mut seen = Vec::new();
    let mut iter = win.iter();
    let mut remaining = iter.len();
    assert_eq!(4, remaining);
    while let Some(v) = iter.next() {
        remaining -= 1;
        assert_eq!(remaining, iter.len());
        seen.push(*v);
    }
    assert_eq!(0, remaining);
    // Newest to oldest: the reverse of the last four pushes.
    assert_eq!(vec![9, 8, 7, 6], seen);
}

#[test]
fn test_window_snapshot() {
    let mut win = DynamicWindow::new(|_| 0, 3);
    win.push(1);
    win.push(2);
    win.push(3);
    win.push(4);
    assert_eq!(vec![4, 3, 2], win.snapshot());

    let mut swin = StaticWindow::<i32, 2>::new(|_| 7);
    assert_eq!(vec![7, 7], swin.snapshot());
    swin.push(9);
    assert_eq!(vec![9, 7], swin.snapshot());
}

#[test]
fn test_window_trait_generic_use() {
    fn roll<W: Window<i32>>(win: &mut W, values: &[i32]) -> i32 {
        let mut displaced_sum = 0;
        for v in values {
            let (_, displaced) = win.push(*v);
            displaced_sum += displaced;
        }
        displaced_sum
    }

    let mut dynamic = DynamicWindow::new(|_| 0, 2);
    assert_eq!(0 + 0 + 1, roll(&mut dynamic, &[1, 2, 3]));
    assert_eq!(3, *Window::newest(&dynamic));
    assert_eq!(2, *Window::oldest(&dynamic));
    assert_eq!(2, Window::period(&dynamic));

    let mut fixed = StaticWindow::<i32, 2>::new(|_| 0);
    assert_eq!(1, roll(&mut fixed, &[1, 2, 3]));
}
