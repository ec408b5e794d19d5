// Each impl below holds, after its executable function, the ghost functions of the trait.
// They carry the contract where an impl is verified; compiled code never calls them.
use prop::ident::{Name, B, D, I, O, Y};
use prop::{PropFrom, PropInto, Property, PropertyBag, PropertyBase, TakeProperty};

struct Hoge {
    id: usize,
    body: String,
}

struct Fuga {
    body: String,
}

#[test]
fn handwritten_valid_conversion() {
    let hoge = Hoge {
        id: 42,
        body: "hoge".to_string(),
    };
    let fuga = Fuga::prop_from(hoge);
    assert_eq!(fuga.body, "hoge");

    let hoge2 = Hoge {
        id: 21,
        body: "hoge2".to_string(),
    };
    let fuga2: Fuga = hoge2.prop_into();
    assert_eq!(fuga2.body, "hoge2");
}

#[test]
fn handwritten_conversion_to_the_same_record() {
    let hoge = Hoge {
        id: 42,
        body: "hoge".to_string(),
    };
    let copy = Hoge::prop_from(hoge);
    assert_eq!(copy.id, 42);
    assert_eq!(copy.body, "hoge");

    let fuga = Fuga {
        body: "fuga".to_string(),
    };
    let copy: Fuga = fuga.prop_into();
    assert_eq!(copy.body, "fuga");
}

struct __HogeMid {
    id: Option<usize>,
    body: Option<String>,
}

type ID = I<D<()>>;
type BODY = B<O<D<Y<()>>>>;

impl PropertyBase for Hoge {
    type Mid = __HogeMid;

    fn into_mid(self) -> Self::Mid {
        __HogeMid {
            id: Some(self.id),
            body: Some(self.body),
        }
    }

    fn into_mid_spec(self) -> Self::Mid {
        unreachable!()
    }
}

impl PropertyBag for __HogeMid {
    fn emptied(_: Self, _: Self, _: Name) -> bool {
        unreachable!()
    }
}

impl TakeProperty<ID, usize> for __HogeMid {
    fn take_only_once(&mut self) -> usize {
        self.id.take().unwrap()
    }

    fn slot(&self) -> Option<usize> {
        unreachable!()
    }

    fn lemma_slot_kept(_: Self, _: Self, _: Name) {}
}

impl TakeProperty<BODY, String> for __HogeMid {
    fn take_only_once(&mut self) -> String {
        self.body.take().unwrap()
    }

    fn slot(&self) -> Option<String> {
        unreachable!()
    }

    fn lemma_slot_kept(_: Self, _: Self, _: Name) {}
}

impl Property<ID, usize> for Hoge {
    fn get(&self) -> &usize {
        &self.id
    }

    fn value(&self) -> usize {
        unreachable!()
    }

    fn lemma_mid_holds_value(self) {}
}

impl Property<BODY, String> for Hoge {
    fn get(&self) -> &String {
        &self.body
    }

    fn value(&self) -> String {
        unreachable!()
    }

    fn lemma_mid_holds_value(self) {}
}

impl<T> PropFrom<T> for Hoge
where
    T: Property<ID, usize> + Property<BODY, String> + PropertyBase,
    <T as PropertyBase>::Mid: TakeProperty<ID, usize> + TakeProperty<BODY, String>,
{
    fn prop_from(t: T) -> Self {
        let mut mid = t.into_mid();
        let id = TakeProperty::<ID, usize>::take_only_once(&mut mid);
        let body = TakeProperty::<BODY, String>::take_only_once(&mut mid);

        Hoge { id, body }
    }

    fn prop_from_spec(_: T) -> Self {
        unreachable!()
    }
}

struct __FugaMid {
    body: Option<String>,
}

impl PropertyBase for Fuga {
    type Mid = __FugaMid;

    fn into_mid(self) -> Self::Mid {
        __FugaMid {
            body: Some(self.body),
        }
    }

    fn into_mid_spec(self) -> Self::Mid {
        unreachable!()
    }
}

impl PropertyBag for __FugaMid {
    fn emptied(_: Self, _: Self, _: Name) -> bool {
        unreachable!()
    }
}

impl TakeProperty<BODY, String> for __FugaMid {
    fn take_only_once(&mut self) -> String {
        self.body.take().unwrap()
    }

    fn slot(&self) -> Option<String> {
        unreachable!()
    }

    fn lemma_slot_kept(_: Self, _: Self, _: Name) {}
}

impl Property<BODY, String> for Fuga {
    fn get(&self) -> &String {
        &self.body
    }

    fn value(&self) -> String {
        unreachable!()
    }

    fn lemma_mid_holds_value(self) {}
}

impl<T> PropFrom<T> for Fuga
where
    T: Property<BODY, String> + PropertyBase,
    <T as PropertyBase>::Mid: TakeProperty<BODY, String>,
{
    fn prop_from(t: T) -> Self {
        let mut mid = t.into_mid();
        let body = TakeProperty::<BODY, String>::take_only_once(&mut mid);
        Fuga { body }
    }

    fn prop_from_spec(_: T) -> Self {
        unreachable!()
    }
}
