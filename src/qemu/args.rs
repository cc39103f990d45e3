//! Property lists: the `key=value,key=value` arguments of the monitor's
//! command line.
use vstd::prelude::*;

use crate::text::{decimal, decimal_of};

verus! {

/// The text of an optional string.
pub open spec fn opt_text(o: Option<String>) -> Option<Seq<char>> {
    match o {
        Some(s) => Some(s@),
        None => None,
    }
}

/// An argument of the monitor's command line
pub trait Arg {
    spec fn spec_arg(&self) -> Seq<char>;

    /// The argument's text
    fn to_arg(&self) -> (r: String)
        ensures
            r@ == self.spec_arg(),
    ;
}

impl Arg for String {
    open spec fn spec_arg(&self) -> Seq<char> {
        self@
    }

    fn to_arg(&self) -> (r: String) {
        self.clone()
    }
}

impl Arg for usize {
    open spec fn spec_arg(&self) -> Seq<char> {
        decimal_of(*self as nat)
    }

    fn to_arg(&self) -> (r: String) {
        decimal(*self)
    }
}

/// Properties of free-form `key=value` pairs, in order.
pub open spec fn pair_properties(pairs: Seq<(String, String)>) -> Seq<(Seq<char>, Option<Seq<char>>)> {
    pairs.map_values(|kv: (String, String)| (kv.0@, Some(kv.1@)))
}

/// A backend of a command-line option (a character device, a network device)
pub trait Backend {
    spec fn spec_name(&self) -> Seq<char>;

    spec fn spec_properties(&self) -> Seq<(Seq<char>, Option<Seq<char>>)>;

    /// Name of the backend
    fn name(&self) -> (r: &str)
        ensures
            r@ == self.spec_name(),
    ;

    /// Properties of backend
    fn properties(&self) -> (r: PropertyList)
        ensures
            r@ == self.spec_properties(),
    ;
}

/// A value that a property can take; a value of none leaves the property out.
pub trait PropertyValue {
    spec fn spec_value(&self) -> Option<Seq<char>>;

    fn value(&self) -> (r: Option<String>)
        ensures
            opt_text(r) == self.spec_value(),
    ;
}

impl<'a> PropertyValue for &'a str {
    open spec fn spec_value(&self) -> Option<Seq<char>> {
        Some((*self)@)
    }

    fn value(&self) -> (r: Option<String>) {
        Some((*self).to_string())
    }
}

impl PropertyValue for usize {
    open spec fn spec_value(&self) -> Option<Seq<char>> {
        Some(decimal_of(*self as nat))
    }

    fn value(&self) -> (r: Option<String>) {
        Some(decimal(*self))
    }
}

impl PropertyValue for String {
    open spec fn spec_value(&self) -> Option<Seq<char>> {
        Some(self@)
    }

    fn value(&self) -> (r: Option<String>) {
        Some(self.clone())
    }
}

impl<T: PropertyValue> PropertyValue for Option<T> {
    open spec fn spec_value(&self) -> Option<Seq<char>> {
        match self {
            Some(prop) => prop.spec_value(),
            None => None,
        }
    }

    fn value(&self) -> (r: Option<String>) {
        match self {
            Some(prop) => prop.value(),
            None => None,
        }
    }
}

/// The text `key=value`.
pub open spec fn pair_text(key: Seq<char>, value: Seq<char>) -> Seq<char> {
    key + "="@ + value
}

/// A named property, with its value if it has one
#[derive(Clone, Debug)]
pub struct Property {
    key: String,
    value: Option<String>,
}

impl View for Property {
    type V = (Seq<char>, Option<Seq<char>>);

    closed spec fn view(&self) -> (Seq<char>, Option<Seq<char>>) {
        (self.key@, opt_text(self.value))
    }
}

impl Property {
    /// The property with its value, if it has one.
    pub fn valued(&self) -> (r: Option<ValuedProperty>)
        ensures
            self@.1 is None ==> r is None,
            self@.1 matches Some(v) ==> (r matches Some(p) && p@ == (self@.0, v)),
    {
        match &self.value {
            Some(value) => Some(ValuedProperty { key: self.key.clone(), value: value.clone() }),
            None => None,
        }
    }

    /// `key=value`, with an empty value where there is none.
    pub fn to_string(&self) -> (r: String)
        ensures
            r@ == pair_text(
                self@.0,
                match self@.1 {
                    Some(v) => v,
                    None => Seq::empty(),
                },
            ),
    {
        let mut r = self.key.clone();
        r.append("=");
        match &self.value {
            Some(value) => r.append(value.as_str()),
            None => {},
        }
        r
    }
}

/// A property that has a value
#[derive(Clone, Debug)]
pub struct ValuedProperty {
    key: String,
    value: String,
}

impl View for ValuedProperty {
    type V = (Seq<char>, Seq<char>);

    closed spec fn view(&self) -> (Seq<char>, Seq<char>) {
        (self.key@, self.value@)
    }
}

impl ValuedProperty {
    /// `key=value`.
    pub fn to_string(&self) -> (r: String)
        ensures
            r@ == pair_text(self@.0, self@.1),
    {
        let mut r = self.key.clone();
        r.append("=");
        r.append(self.value.as_str());
        r
    }
}

/// The `key=value` texts of the properties that have a value, in order.
pub open spec fn valued_texts(props: Seq<(Seq<char>, Option<Seq<char>>)>) -> Seq<Seq<char>>
    decreases props.len(),
{
    if props.len() == 0 {
        Seq::empty()
    } else {
        let init = valued_texts(props.drop_last());
        match props.last().1 {
            Some(v) => init.push(pair_text(props.last().0, v)),
            None => init,
        }
    }
}

/// `items` joined by commas.
pub open spec fn comma_joined(items: Seq<Seq<char>>) -> Seq<char>
    decreases items.len(),
{
    if items.len() == 0 {
        Seq::empty()
    } else if items.len() == 1 {
        items[0]
    } else {
        comma_joined(items.drop_last()) + ","@ + items.last()
    }
}

/// The text of a property list: its valued properties as `key=value`,
/// joined by commas.
pub open spec fn list_text(props: Seq<(Seq<char>, Option<Seq<char>>)>) -> Seq<char> {
    comma_joined(valued_texts(props))
}

/// An ordered list of properties
#[derive(Clone, Debug)]
pub struct PropertyList(Vec<Property>);

impl View for PropertyList {
    type V = Seq<(Seq<char>, Option<Seq<char>>)>;

    closed spec fn view(&self) -> Seq<(Seq<char>, Option<Seq<char>>)> {
        self.0@.map_values(|p: Property| p@)
    }
}

impl Default for PropertyList {
    fn default() -> (r: PropertyList)
        ensures
            r@ == Seq::<(Seq<char>, Option<Seq<char>>)>::empty(),
    {
        let r = PropertyList(Vec::new());
        assert(r@ =~= Seq::<(Seq<char>, Option<Seq<char>>)>::empty());
        r
    }
}

impl PropertyList {
    /// Appends the property `key` with the value of `value`.
    pub fn insert<V: PropertyValue>(&mut self, key: &str, value: &V)
        ensures
            final(self)@ == old(self)@.push((key@, value.spec_value())),
    {
        let p = Property { key: key.to_string(), value: value.value() };
        self.0.push(p);
        assert(final(self)@ =~= old(self)@.push((key@, value.spec_value())));
    }

    /// Appends each pair of `pairs` as a property, in order.
    pub fn extend(&mut self, pairs: &Vec<(String, String)>)
        ensures
            final(self)@ == old(self)@ + pair_properties(pairs@),
    {
        let mut i: usize = 0;
        while i < pairs.len()
            invariant
                i <= pairs@.len(),
                self@ == old(self)@ + pair_properties(pairs@.subrange(0, i as int)),
            decreases pairs@.len() - i,
        {
            let pair = &pairs[i];
            self.insert(pair.0.as_str(), &pair.1);
            assert(pair_properties(pairs@.subrange(0, i + 1)) =~= pair_properties(
                pairs@.subrange(0, i as int),
            ).push((pair.0@, Some(pair.1@))));
            i += 1;
            assert(self@ =~= old(self)@ + pair_properties(pairs@.subrange(0, i as int)));
        }
        assert(pairs@.subrange(0, pairs@.len() as int) =~= pairs@);
    }

    /// The properties that have a value, as `key=value`, joined by commas.
    pub fn to_string(&self) -> (r: String)
        ensures
            r@ == list_text(self@),
    {
        let mut r = String::new();
        let mut count: usize = 0;
        let mut i: usize = 0;
        while i < self.0.len()
            invariant
                i <= self.0@.len(),
                self@.len() == self.0@.len(),
                count == valued_texts(self@.subrange(0, i as int)).len(),
                count <= i,
                r@ == comma_joined(valued_texts(self@.subrange(0, i as int))),
            decreases self.0@.len() - i,
        {
            let ghost before = self@.subrange(0, i as int);
            let ghost after = self@.subrange(0, i + 1);
            assert(after.drop_last() =~= before);
            assert(after.last() == self.0@[i as int]@);
            let p = &self.0[i];
            match &p.value {
                Some(value) => {
                    let ghost items = valued_texts(after);
                    assert(items == valued_texts(before).push(pair_text(p.key@, value@)));
                    assert(items.drop_last() =~= valued_texts(before));
                    if count > 0 {
                        r.append(",");
                    } else {
                        assert(r@ =~= Seq::<char>::empty());
                    }
                    r.append(p.key.as_str());
                    r.append("=");
                    r.append(value.as_str());
                    count = count + 1;
                    assert(r@ =~= comma_joined(valued_texts(after)));
                },
                None => {
                    assert(valued_texts(after) == valued_texts(before));
                },
            }
            i += 1;
        }
        assert(self@.subrange(0, self@.len() as int) =~= self@);
        r
    }
}

} // verus!
