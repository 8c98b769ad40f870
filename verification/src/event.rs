//! Events: what is reported when a condition is met.
use crate::outside::{
    json_member_text, json_object_text, json_reads, named_numbers, named_objects, named_texts,
    object_keys, object_members, occurs_once, print_json_object,
};
use vstd::prelude::*;
use vstd::string::*;

verus! {

/// One check of a commit.
#[derive(Debug)]
pub struct CheckRun {
    pub name: String,
    pub status: String,
    pub conclusion: String,
}

/// What stands for a [`CheckRun`] in contracts.
pub struct CheckRunView {
    pub name: Seq<char>,
    pub status: Seq<char>,
    pub conclusion: Seq<char>,
}

impl View for CheckRun {
    type V = CheckRunView;

    open spec fn view(&self) -> CheckRunView {
        CheckRunView { name: self.name@, status: self.status@, conclusion: self.conclusion@ }
    }
}

/// What stands for a list of checks in contracts.
pub open spec fn check_views(checks: Seq<CheckRun>) -> Seq<CheckRunView> {
    checks.map_values(|c: CheckRun| c@)
}

/// An event: a JSON object, by the kinds of its members.
#[derive(Debug)]
pub struct Event {
    /// The members that are texts.
    pub texts: Vec<(String, String)>,
    /// The members that are numbers.
    pub numbers: Vec<(String, i64)>,
    /// The checks, where the event has any: the member `checks`, a list of objects.
    pub checks: Option<Vec<CheckRun>>,
}

/// What stands for an [`Event`] in contracts.
pub struct EventView {
    pub texts: Seq<(Seq<char>, Seq<char>)>,
    pub numbers: Seq<(Seq<char>, i64)>,
    pub checks: Option<Seq<CheckRunView>>,
}

/// An optional list of checks by its view.
pub open spec fn checks_of(checks: Option<Vec<CheckRun>>) -> Option<Seq<CheckRunView>> {
    match checks {
        Some(list) => Some(check_views(list@)),
        None => None,
    }
}

impl View for Event {
    type V = EventView;

    open spec fn view(&self) -> EventView {
        EventView {
            texts: named_texts(self.texts@),
            numbers: named_numbers(self.numbers@),
            checks: checks_of(self.checks),
        }
    }
}

/// An optional event by its view.
pub open spec fn event_of(e: Option<Event>) -> Option<EventView> {
    match e {
        Some(event) => Some(event@),
        None => None,
    }
}

/// The members of the object that a check is in an event.
pub open spec fn check_members(check: CheckRunView) -> Seq<(Seq<char>, Seq<char>)> {
    seq![
        ("name"@, check.name),
        ("status"@, check.status),
        ("conclusion"@, check.conclusion),
    ]
}

impl EventView {
    /// The members that are lists of objects.
    pub open spec fn objects(self) -> Seq<(Seq<char>, Seq<Seq<(Seq<char>, Seq<char>)>>)> {
        match self.checks {
            Some(checks) => seq![
                ("checks"@, checks.map_values(|c: CheckRunView| check_members(c))),
            ],
            None => Seq::empty(),
        }
    }

    /// The event as JSON text.
    pub open spec fn json(self) -> Seq<char> {
        json_object_text(self.texts, self.numbers, self.objects())
    }

    /// Whether a key is that of one member only.
    pub open spec fn has_once(self, key: Seq<char>) -> bool {
        occurs_once(object_keys(self.texts, self.numbers, self.objects()), key)
    }
}

impl Event {
    /// An event with only its source and its type.
    pub fn new(source: &str, kind: &str) -> (r: Event)
        ensures
            r@.texts == seq![("source"@, source@), ("type"@, kind@)],
            r@.numbers == Seq::<(Seq<char>, i64)>::empty(),
            r@.checks is None,
    {
        let empty: Event = Event { texts: Vec::new(), numbers: Vec::new(), checks: None };
        let r: Event = empty.text("source", source).text("type", kind);
        proof {
            assert(r@.texts =~= seq![("source"@, source@), ("type"@, kind@)]);
            assert(r@.numbers =~= Seq::<(Seq<char>, i64)>::empty());
        }
        r
    }

    /// The event with one more member, a text.
    pub fn text(self, key: &str, text: &str) -> (r: Event)
        ensures
            r@ == (EventView { texts: self@.texts.push((key@, text@)), ..self@ }),
    {
        let mut texts: Vec<(String, String)> = self.texts;
        texts.push((key.to_owned(), text.to_owned()));
        proof {
            assert(named_texts(texts@) =~= self@.texts.push((key@, text@)));
        }
        Event { texts, numbers: self.numbers, checks: self.checks }
    }

    /// The event with one more member, a number.
    pub fn number(self, key: &str, n: i64) -> (r: Event)
        ensures
            r@ == (EventView { numbers: self@.numbers.push((key@, n)), ..self@ }),
    {
        let mut numbers: Vec<(String, i64)> = self.numbers;
        numbers.push((key.to_owned(), n));
        proof {
            assert(named_numbers(numbers@) =~= self@.numbers.push((key@, n)));
        }
        Event { texts: self.texts, numbers, checks: self.checks }
    }

    /// The event with a list of checks.
    pub fn with_checks(self, checks: Vec<CheckRun>) -> (r: Event)
        ensures
            r@ == (EventView { checks: Some(check_views(checks@)), ..self@ }),
    {
        Event { texts: self.texts, numbers: self.numbers, checks: Some(checks) }
    }

    /// The event as JSON text: it reads as JSON, and each of its texts that has a key of
    /// its own is read back under that key.
    pub fn to_json(&self) -> (r: String)
        ensures
            r@ == self@.json(),
            json_reads(r@),
            forall|i: int|
                0 <= i < self@.texts.len() && self@.has_once((#[trigger] self@.texts[i]).0)
                    ==> json_member_text(r@, self@.texts[i].0) == Some(self@.texts[i].1),
    {
        let mut lists: Vec<(String, Vec<Vec<(String, String)>>)> = Vec::new();
        match &self.checks {
            None => {
                proof {
                    assert(named_objects(lists@) =~= self@.objects());
                }
            },
            Some(checks) => {
                let mut objects: Vec<Vec<(String, String)>> = Vec::new();
                let mut i: usize = 0;
                while i < checks.len()
                    invariant
                        i <= checks@.len(),
                        objects@.len() == i,
                        forall|k: int|
                            0 <= k < i ==> named_texts((#[trigger] objects@[k])@) == check_members(
                                checks@[k]@,
                            ),
                    decreases checks@.len() - i,
                {
                    let check: &CheckRun = &checks[i];
                    let mut members: Vec<(String, String)> = Vec::new();
                    members.push(("name".to_owned(), check.name.clone()));
                    members.push(("status".to_owned(), check.status.clone()));
                    members.push(("conclusion".to_owned(), check.conclusion.clone()));
                    proof {
                        assert(named_texts(members@) =~= check_members(check@));
                    }
                    objects.push(members);
                    i = i + 1;
                }
                proof {
                    assert(object_members(objects@) =~= check_views(checks@).map_values(
                        |c: CheckRunView| check_members(c),
                    ));
                }
                lists.push(("checks".to_owned(), objects));
                proof {
                    assert(named_objects(lists@) =~= self@.objects());
                }
            },
        }
        print_json_object(&self.texts, &self.numbers, &lists)
    }
}

} // verus!
