use primer::methods::Rectangle;

#[test]
fn forty_by_fifty_covers_two_thousand() {
    let rect1 = Rectangle { width: 40, height: 50 };
    assert_eq!(rect1.area(), 2000);
}

#[test]
fn areas_reach_the_end_of_the_range() {
    assert_eq!(Rectangle { width: 0, height: 50 }.area(), 0);
    assert_eq!(Rectangle { width: 1, height: u32::MAX }.area(), u32::MAX);
    assert_eq!(Rectangle { width: 65535, height: 65537 }.area(), u32::MAX);
    assert_eq!(Rectangle { width: 20, height: 30 }.area(), 600);
    assert_eq!(Rectangle { width: 30, height: 55 }.area(), 1650);
}

#[test]
fn the_larger_rectangle_holds_the_smaller() {
    let rect1 = Rectangle { width: 40, height: 50 };
    let rect2 = Rectangle { width: 20, height: 30 };
    assert!(rect1.can_hold(&rect2));
    assert!(!rect2.can_hold(&rect1));
}

#[test]
fn a_taller_rectangle_is_not_held() {
    let rect1 = Rectangle { width: 40, height: 50 };
    let rect3 = Rectangle { width: 30, height: 55 };
    assert!(!rect1.can_hold(&rect3));
    assert!(!rect3.can_hold(&rect1));
}

#[test]
fn a_rectangle_does_not_hold_one_of_equal_width_or_height() {
    let rect = Rectangle { width: 40, height: 50 };
    assert!(!rect.can_hold(&rect));
    assert!(!rect.can_hold(&Rectangle { width: 40, height: 10 }));
    assert!(!rect.can_hold(&Rectangle { width: 10, height: 50 }));
    assert!(rect.can_hold(&Rectangle { width: 39, height: 49 }));
    assert!(rect.can_hold(&Rectangle { width: 0, height: 0 }));
}

#[test]
fn a_rectangle_that_holds_another_covers_more() {
    let outer = Rectangle { width: 7, height: 3 };
    let inner = Rectangle { width: 6, height: 2 };
    assert!(outer.can_hold(&inner));
    assert!(outer.area() > inner.area());
}
