use std::cell::RefCell;
use std::rc::Rc;

use cov_mark::Guard;
use cov_mark::Outcome;
use cov_mark::Registry;
use cov_mark::hit;

fn safe_divide(reg: &mut Registry, dividend: u32, divisor: u32) -> u32 {
    if divisor == 0 {
        hit(reg, "save_divide_zero");
        return 0;
    }
    dividend / divisor
}

#[test]
fn smoke_test_safe_divide_by_zero() {
    let mut reg = Registry::new();
    let guard = Guard::new(&mut reg, "save_divide_zero", None);
    assert_eq!(safe_divide(&mut reg, 92, 0), 0);
    let outcome = guard.exit(&mut reg, false);
    assert!(outcome.is_pass());
}

struct CoveredDropper {
    reg: Rc<RefCell<Registry>>,
}

impl Drop for CoveredDropper {
    fn drop(&mut self) {
        hit(&mut self.reg.borrow_mut(), "covered_dropper_drops");
    }
}

#[test]
fn smoke_test_drop_count() {
    let reg = Rc::new(RefCell::new(Registry::new()));
    let guard = Guard::new(&mut reg.borrow_mut(), "covered_dropper_drops", Some(2));
    {
        let _covered_dropper1 = CoveredDropper { reg: Rc::clone(&reg) };
        let _covered_dropper2 = CoveredDropper { reg: Rc::clone(&reg) };
    }
    let outcome = guard.exit(&mut reg.borrow_mut(), false);
    assert!(matches!(outcome, Outcome::Pass));
}
