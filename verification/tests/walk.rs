use exprgraph::{Expr, ExprVisitor, IdGenerator, ParameterUnbound, Tracer};

struct ConstantCounter {
    constants: u32,
}

impl ExprVisitor<f64, ()> for ConstantCounter {
    fn visit_constant(&mut self, _value: f64) {
        self.constants += 1;
    }

    fn visit_parameter(&mut self, _index: u32, _name: &str) {}

    fn visit_add(&mut self, _lhs: (), _rhs: ()) {}

    fn visit_mul(&mut self, _lhs: (), _rhs: ()) {}
}

/// Writes the expression down in postfix notation, and records each callback
/// in the order in which it ran.
struct Recorder {
    calls: Vec<String>,
}

impl ExprVisitor<f64, String> for Recorder {
    fn visit_constant(&mut self, value: f64) -> String {
        self.calls.push(format!("constant {}", value));
        format!("{}", value)
    }

    fn visit_parameter(&mut self, index: u32, name: &str) -> String {
        self.calls.push(format!("parameter {} {}", index, name));
        format!("{}#{}", name, index)
    }

    fn visit_add(&mut self, lhs: String, rhs: String) -> String {
        self.calls.push(format!("add ({}) ({})", lhs, rhs));
        format!("{} {} +", lhs, rhs)
    }

    fn visit_mul(&mut self, lhs: String, rhs: String) -> String {
        self.calls.push(format!("mul ({}) ({})", lhs, rhs));
        format!("{} {} *", lhs, rhs)
    }
}

#[test]
fn shared_node_is_visited_once_per_path() {
    let mut ids = IdGenerator::new();
    let shared = Expr::constant(&mut ids, 1.0).unwrap();
    let expr = Expr::add(&mut ids, shared.clone(), shared).unwrap();
    let mut counter = ConstantCounter { constants: 0 };
    expr.walk(&mut counter);
    assert_eq!(counter.constants, 2);
}

#[test]
fn repeated_sharing_doubles_the_visits() {
    let mut ids = IdGenerator::new();
    let mut expr = Expr::constant(&mut ids, 1.0).unwrap();
    for _ in 0..10 {
        expr = Expr::mul(&mut ids, expr.clone(), expr).unwrap();
    }
    let mut counter = ConstantCounter { constants: 0 };
    expr.walk(&mut counter);
    assert_eq!(counter.constants, 1024);
}

#[test]
fn walk_is_post_order_left_before_right() {
    let mut ids = IdGenerator::new();
    let x = Expr::parameter(&mut ids, 0, "x".to_string()).unwrap();
    let two = Expr::constant(&mut ids, 2.0).unwrap();
    let y = Expr::parameter(&mut ids, 1, "y".to_string()).unwrap();
    let one = Expr::constant(&mut ids, 1.0).unwrap();
    let left = Expr::add(&mut ids, x, two).unwrap();
    let right = Expr::mul(&mut ids, y, one).unwrap();
    let expr = Expr::add(&mut ids, left, right).unwrap();
    let mut recorder = Recorder { calls: Vec::new() };
    let written = expr.walk(&mut recorder);
    assert_eq!(written, "x#0 2 + y#1 1 * +");
    assert_eq!(
        recorder.calls,
        vec![
            "parameter 0 x",
            "constant 2",
            "add (x#0) (2)",
            "parameter 1 y",
            "constant 1",
            "mul (y#1) (1)",
            "add (x#0 2 +) (y#1 1 *)",
        ]
    );
}

#[test]
fn walk_of_a_leaf_is_one_callback() {
    let mut ids = IdGenerator::new();
    let c = Expr::constant(&mut ids, 7.5).unwrap();
    let p = Expr::<f64>::parameter(&mut ids, 3, "p".to_string()).unwrap();
    let mut recorder = Recorder { calls: Vec::new() };
    assert_eq!(c.walk(&mut recorder), "7.5");
    assert_eq!(p.walk(&mut recorder), "p#3");
    assert_eq!(recorder.calls, vec!["constant 7.5", "parameter 3 p"]);
}

#[test]
fn walking_with_a_tracer_is_evaluating() {
    let mut ids = IdGenerator::new();
    let x = Expr::parameter(&mut ids, 0, "x".to_string()).unwrap();
    let three = Expr::constant(&mut ids, 3.0).unwrap();
    let expr = Expr::mul(&mut ids, x, three).unwrap();
    let mut tracer = Tracer::new().bind(0, 0.5);
    assert_eq!(expr.walk(&mut tracer), Ok(1.5));
    assert_eq!(expr.walk(&mut tracer), tracer.visit(&expr));
    let mut empty = Tracer::<f64>::new();
    assert_eq!(
        expr.walk(&mut empty),
        Err(ParameterUnbound { index: 0, name: "x".to_string() })
    );
}

#[test]
fn tracer_callbacks_combine_results() {
    let mut tracer = Tracer::new().bind(2, 8.0);
    assert_eq!(tracer.visit_constant(4.0), Ok(4.0));
    assert_eq!(tracer.visit_parameter(2, "k"), Ok(8.0));
    assert_eq!(
        tracer.visit_parameter(3, "m"),
        Err(ParameterUnbound { index: 3, name: "m".to_string() })
    );
    assert_eq!(tracer.visit_add(Ok(1.0), Ok(2.0)), Ok(3.0));
    assert_eq!(tracer.visit_mul(Ok(1.5), Ok(2.0)), Ok(3.0));
    let left = ParameterUnbound { index: 0, name: "l".to_string() };
    let right = ParameterUnbound { index: 1, name: "r".to_string() };
    assert_eq!(tracer.visit_add(Err(left.clone()), Ok(2.0)), Err(left.clone()));
    assert_eq!(tracer.visit_add(Ok(2.0), Err(right.clone())), Err(right.clone()));
    assert_eq!(tracer.visit_add(Err(left.clone()), Err(right.clone())), Err(left.clone()));
    assert_eq!(tracer.visit_mul(Err(left.clone()), Ok(2.0)), Err(left.clone()));
    assert_eq!(tracer.visit_mul(Ok(2.0), Err(right.clone())), Err(right.clone()));
    assert_eq!(tracer.visit_mul(Err(left.clone()), Err(right)), Err(left));
}
