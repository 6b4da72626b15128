use gradvec::{diag, DiffLenErr, GradVec, GradientDescent, Tape};

#[test]
fn it_works() {
    let mut tape = Tape::new();
    let t1 = GradVec::from(&mut tape, (0..10).collect());
    let t2 = GradVec::from(&mut tape, vec![1, 3, -2, 2, 0, -1, 0, -2, -1, 0]);
    // An integer learning rate below one is zero.
    let gd = GradientDescent::new(0, vec![t1, t2]);
    for i in 0..100 {
        let t3 = t1.add(&mut tape, &t2);
        let t4 = t3.mul(&mut tape, &t3).abs(&mut tape);
        gd.step(&mut tape, &t4);
        if i > 90 {
            println!("{}", t4.values(&tape).iter().sum::<i64>());
        }
    }
}

#[test]
fn identity_rule() {
    let mut tape = Tape::new();
    let v = GradVec::from(&mut tape, vec![4, -2, 9]);
    assert_eq!(v.evaluate_grad(&tape, &v), vec![1, 1, 1]);
    let w = v.mul(&mut tape, &v);
    assert_eq!(w.evaluate_grad(&tape, &w), vec![1, 1, 1]);
}

#[test]
fn independence_rule() {
    let mut tape = Tape::new();
    let a = GradVec::from(&mut tape, vec![1, 2]);
    let b = GradVec::from(&mut tape, vec![3, 4, 5]);
    assert_eq!(a.evaluate_grad(&tape, &b), vec![0, 0, 0]);
    assert_eq!(b.evaluate_grad(&tape, &a), vec![0, 0]);
}

#[test]
fn sum_rule() {
    let mut tape = Tape::new();
    let a = GradVec::from(&mut tape, vec![1, 2, 3]);
    let b = GradVec::from(&mut tape, vec![4, 5, 6]);
    let c = a.add(&mut tape, &b);
    assert_eq!(c.values(&tape), vec![5, 7, 9]);
    assert_eq!(c.evaluate_grad(&tape, &a), vec![1, 1, 1]);
    assert_eq!(c.evaluate_grad(&tape, &b), vec![1, 1, 1]);
}

#[test]
fn difference_rule() {
    let mut tape = Tape::new();
    let a = GradVec::from(&mut tape, vec![1, 2]);
    let b = GradVec::from(&mut tape, vec![7, 5]);
    let c = a.sub(&mut tape, &b);
    assert_eq!(c.values(&tape), vec![-6, -3]);
    assert_eq!(c.evaluate_grad(&tape, &a), vec![1, 1]);
    assert_eq!(c.evaluate_grad(&tape, &b), vec![-1, -1]);
}

#[test]
fn product_rule() {
    let mut tape = Tape::new();
    let a = GradVec::from(&mut tape, vec![2, 3]);
    let b = GradVec::from(&mut tape, vec![5, 7]);
    let c = a.mul(&mut tape, &b);
    assert_eq!(c.values(&tape), vec![10, 21]);
    assert_eq!(c.evaluate_grad(&tape, &a), vec![5, 7]);
    assert_eq!(c.evaluate_grad(&tape, &b), vec![2, 3]);
}

#[test]
fn self_multiplication() {
    let mut tape = Tape::new();
    let a = GradVec::from(&mut tape, vec![4, -3]);
    let c = a.mul(&mut tape, &a);
    assert_eq!(c.values(&tape), vec![16, 9]);
    assert_eq!(c.evaluate_grad(&tape, &a), vec![8, -6]);
}

#[test]
fn chain_of_operations() {
    let mut tape = Tape::new();
    let a = GradVec::from(&mut tape, vec![2, 3]);
    let b = GradVec::from(&mut tape, vec![5, 7]);
    let p = a.mul(&mut tape, &b);
    let c = p.add(&mut tape, &a);
    assert_eq!(c.evaluate_grad(&tape, &a), vec![6, 8]);
    let d = c.neg(&mut tape);
    assert_eq!(d.values(&tape), vec![-12, -24]);
    assert_eq!(d.evaluate_grad(&tape, &a), vec![-6, -8]);
    assert_eq!(d.evaluate_grad(&tape, &p), vec![-1, -1]);
}

#[test]
fn division_values_and_quotient_rule() {
    let mut tape = Tape::new();
    let a = GradVec::from(&mut tape, vec![6, 8]);
    let b = GradVec::from(&mut tape, vec![1, 2]);
    let c = a.div(&mut tape, &b);
    // The values are quotients, and the rule divides by the divisor squared.
    assert_eq!(c.values(&tape), vec![6, 4]);
    assert_eq!(c.evaluate_grad(&tape, &a), vec![1, 0]);
    assert_eq!(c.evaluate_grad(&tape, &b), vec![-6, -2]);
}

#[test]
fn division_by_zero_gives_zero() {
    let mut tape = Tape::new();
    let a = GradVec::from(&mut tape, vec![5, -7]);
    let b = GradVec::from(&mut tape, vec![0, 2]);
    let c = a.div(&mut tape, &b);
    assert_eq!(c.values(&tape), vec![0, -3]);
}

#[test]
fn absolute_value_flips_sign_where_negative() {
    let mut tape = Tape::new();
    let a = GradVec::from(&mut tape, vec![-2, 0, 3]);
    let c = a.abs(&mut tape);
    assert_eq!(c.values(&tape), vec![2, 0, 3]);
    assert_eq!(c.evaluate_grad(&tape, &a), vec![-1, 1, 1]);
}

#[test]
fn scalar_add_keeps_node() {
    let mut tape = Tape::new();
    let a = GradVec::from(&mut tape, vec![1, 2, 3]);
    let c = a.add_scalar(&mut tape, 10);
    assert_eq!(c.values(&tape), vec![11, 12, 13]);
    assert_eq!(c.evaluate_grad(&tape, &a), vec![1, 1, 1]);
    assert_eq!(a.values(&tape), vec![1, 2, 3]);
}

#[test]
fn from_scalar_broadcasts() {
    let mut tape = Tape::new();
    let a = GradVec::from(&mut tape, vec![1, 2, 3]);
    let f = GradVec::from_scalar(&mut tape, &a, 7);
    assert_eq!(f.values(&tape), vec![7, 7, 7]);
    assert_eq!(f.len(&tape), 3);
    assert_eq!(f.evaluate_grad(&tape, &a), vec![0, 0, 0]);
    assert_eq!(f.evaluate_grad(&tape, &f), vec![1, 1, 1]);
}

#[test]
fn mutation_detaches_graph() {
    let mut tape = Tape::new();
    let mut a = GradVec::from(&mut tape, vec![1, 2]);
    let b = GradVec::from(&mut tape, vec![3, 4]);
    let c = a.mul(&mut tape, &b);
    let before = a;
    assert_eq!(a.mutate(&mut tape, vec![5, 6]), Ok(()));
    assert_eq!(a.values(&tape), vec![5, 6]);
    assert_ne!(a, before);
    assert_eq!(c.evaluate_grad(&tape, &a), vec![0, 0]);
    assert_eq!(c.evaluate_grad(&tape, &before), vec![3, 4]);
    // The product kept a's buffer, which now holds the new values.
    assert_eq!(c.evaluate_grad(&tape, &b), vec![5, 6]);
    assert_eq!(a.evaluate_grad(&tape, &a), vec![1, 1]);
}

#[test]
fn mutation_with_wrong_length_changes_nothing() {
    let mut tape = Tape::new();
    let mut a = GradVec::from(&mut tape, vec![1, 2]);
    let before = a;
    assert_eq!(a.mutate(&mut tape, vec![1, 2, 3]), Err(DiffLenErr { req: 2, act: 3 }));
    assert_eq!(a, before);
    assert_eq!(a.values(&tape), vec![1, 2]);
}

#[test]
fn step_updates_parameters_in_order() {
    let mut tape = Tape::new();
    let a = GradVec::from(&mut tape, vec![2]);
    let b = GradVec::from(&mut tape, vec![5]);
    let loss = a.mul(&mut tape, &b);
    let gd = GradientDescent::new(1, vec![a, b]);
    gd.step(&mut tape, &loss);
    // a moves by the gradient b = 5; b then moves by the new value of a.
    assert_eq!(a.values(&tape), vec![-3]);
    assert_eq!(b.values(&tape), vec![8]);
    assert_eq!(loss.evaluate_grad(&tape, &a), vec![8]);
}

#[test]
fn step_descends_on_a_square() {
    let mut tape = Tape::new();
    let t1 = GradVec::from(&mut tape, vec![0, 1, 2]);
    let t2 = GradVec::from(&mut tape, vec![1, -1, 3]);
    let t3 = t1.add(&mut tape, &t2);
    let loss = t3.mul(&mut tape, &t3).abs(&mut tape);
    assert_eq!(loss.values(&tape), vec![1, 0, 25]);
    assert_eq!(loss.evaluate_grad(&tape, &t1), vec![2, 0, 10]);
    let gd = GradientDescent::new(1, vec![t1]);
    gd.step(&mut tape, &loss);
    assert_eq!(t1.values(&tape), vec![-2, 1, -8]);
}

#[test]
fn arithmetic_wraps() {
    let mut tape = Tape::new();
    let a = GradVec::from(&mut tape, vec![i64::MAX, i64::MIN]);
    let b = GradVec::from(&mut tape, vec![1, 1]);
    assert_eq!(a.add(&mut tape, &b).values(&tape), vec![i64::MIN, i64::MIN + 1]);
    assert_eq!(a.abs(&mut tape).values(&tape), vec![i64::MAX, i64::MIN]);
    let m = GradVec::from(&mut tape, vec![i64::MIN]);
    let n = GradVec::from(&mut tape, vec![-1]);
    assert_eq!(m.div(&mut tape, &n).values(&tape), vec![i64::MIN]);
}

#[test]
fn diag_matrix() {
    assert_eq!(diag(3, 5), vec![vec![5, 0, 0], vec![0, 5, 0], vec![0, 0, 5]]);
    assert_eq!(diag(0, 1), Vec::<Vec<i64>>::new());
}

#[test]
fn results_keep_their_values_after_mutation() {
    let mut tape = Tape::new();
    let mut a = GradVec::from(&mut tape, vec![2, 3]);
    let b = GradVec::from(&mut tape, vec![5, 7]);
    let c = a.mul(&mut tape, &b);
    let s = a.add(&mut tape, &b);
    let m = a.abs(&mut tape);
    let f = GradVec::from_scalar(&mut tape, &a, 4);
    let k = a.add_scalar(&mut tape, 1);
    assert_eq!(a.mutate(&mut tape, vec![-1, -1]), Ok(()));
    assert_eq!(c.values(&tape), vec![10, 21]);
    assert_eq!(s.values(&tape), vec![7, 10]);
    assert_eq!(m.values(&tape), vec![2, 3]);
    assert_eq!(f.values(&tape), vec![4, 4]);
    assert_eq!(k.values(&tape), vec![3, 4]);
    // The product's node kept a's buffer, which holds the new values.
    assert_eq!(c.evaluate_grad(&tape, &b), vec![-1, -1]);
}

#[test]
fn add_scalar_of_zero_makes_a_new_buffer() {
    let mut tape = Tape::new();
    let mut a = GradVec::from(&mut tape, vec![2, 3]);
    let k = a.add_scalar(&mut tape, 0);
    assert_eq!(a.mutate(&mut tape, vec![9, 9]), Ok(()));
    assert_eq!(k.values(&tape), vec![2, 3]);
}
