use template::{Construction, Template, TemplateConstruction};

#[derive(Default)]
struct MyComponent {
    field: i32,
}

impl Template for MyComponent {
    type Output = i32;

    fn define(self) -> i32 {
        self.field * 3
    }
}

trait Factor {
    fn factor(&self) -> Construction<MyComponent>;
}

impl Factor for i32 {
    fn factor(&self) -> Construction<MyComponent> {
        let mut out = Construction::<MyComponent>::default();
        let this = *self;
        out.on_create(move |w| println!("{this} * {w} = {prod}", prod = *w * this));
        out
    }
}

#[test]
fn example() {
    let a = Construction {
        definition: MyComponent { field: 6 },
        ..Default::default()
    }
    .build(|w| {
        Construction {
            definition: MyComponent { field: 7 },
            ..w.factor()
        }
        .create();
        w
    });
    println!("{}", a);
}

#[test]
fn example_gives_the_defined_output_to_the_finishing_function() {
    let a = Construction {
        definition: MyComponent { field: 6 },
        ..Default::default()
    }
    .build(|w| {
        let inner = Construction {
            definition: MyComponent { field: 7 },
            ..w.factor()
        }
        .create();
        assert_eq!(inner, 21);
        w
    });
    assert_eq!(a, 18);
}

#[test]
fn factor_registers_one_callback_and_keeps_the_default_definition() {
    let made = 18.factor();
    assert_eq!(made.pending.len(), 1);
    assert_eq!(made.definition.field, 0);
    assert_eq!(made.create(), 0);
}
