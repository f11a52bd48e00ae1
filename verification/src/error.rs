//! Errors: what a resolution pass reports while a declaration is built, and
//! what a lookup at run time reports.

use vstd::prelude::*;

verus! {

broadcast use vstd::string::group_string_axioms;

/// The place of a token of an option list: the attribute that holds the list,
/// by its position among the attributes of its declaration, and the token, by
/// its position in that list.
#[derive(Clone, Copy, Debug, PartialEq, Eq, Structural)]
pub struct Span {
    pub attr: usize,
    pub token: usize,
}

/// What a diagnostic points at within a declaration or one of its members.
#[derive(Clone, Copy, Debug, PartialEq, Eq, Structural)]
pub enum Place {
    /// The declaration or member itself.
    Declaration,
    /// One of its attributes, by position.
    Attribute(usize),
    /// One token of an option list.
    Token(Span),
}

/// Where a diagnostic is anchored.
#[derive(Clone, Copy, Debug, PartialEq, Eq, Structural)]
pub struct Location {
    /// The member of the declaration, by position; `None` for the
    /// declaration itself.
    pub member: Option<usize>,
    pub place: Place,
}

/// The kinds of errors that stop the processing of a declaration.
#[derive(Clone, Copy, Debug, PartialEq, Eq, Structural)]
pub enum ErrorKind {
    /// A key that is no option.
    UnknownOption,
    /// An option of one kind given more than once.
    DuplicateOption,
    /// An option that the consumer at hand does not take.
    InapplicableOption,
    /// A value, an option or an attribute that is not of the required form.
    MalformedValue,
    /// No documentation and no default where documentation is required.
    MissingDocumentation,
    /// Two members with the same exposed name.
    DuplicateLookupKey,
    /// A declaration of a shape that the consumer at hand does not take.
    StructuralMismatch,
}

/// One message at one place.
#[derive(Clone, Debug, PartialEq, Eq)]
pub struct Diagnostic {
    pub kind: ErrorKind,
    pub location: Location,
    pub message: String,
}

/// What a [`Diagnostic`] holds, with its texts as sequences of characters.
pub struct DiagnosticView {
    pub kind: ErrorKind,
    pub location: Location,
    pub message: Seq<char>,
}

impl View for Diagnostic {
    type V = DiagnosticView;

    open spec fn view(&self) -> DiagnosticView {
        DiagnosticView { kind: self.kind, location: self.location, message: self.message@ }
    }
}

impl DiagnosticView {
    /// The same diagnostic, anchored in the member at position `member`.
    pub open spec fn in_member(self, member: usize) -> DiagnosticView {
        DiagnosticView {
            kind: self.kind,
            location: Location { member: Some(member), place: self.location.place },
            message: self.message,
        }
    }
}

/// A build-time error: one or more diagnostics, the first of which says what
/// went wrong.
#[derive(Clone, Debug, PartialEq, Eq)]
pub struct BuildError {
    pub first: Diagnostic,
    pub rest: Vec<Diagnostic>,
}

/// The views of a sequence of diagnostics.
pub open spec fn diagnostic_views(diagnostics: Seq<Diagnostic>) -> Seq<DiagnosticView> {
    diagnostics.map_values(|d: Diagnostic| d@)
}

impl View for BuildError {
    type V = Seq<DiagnosticView>;

    open spec fn view(&self) -> Seq<DiagnosticView> {
        seq![self.first@] + diagnostic_views(self.rest@)
    }
}

/// The same diagnostics, anchored in the member at position `member`.
pub open spec fn in_member(diagnostics: Seq<DiagnosticView>, member: usize) -> Seq<DiagnosticView> {
    diagnostics.map_values(|d: DiagnosticView| d.in_member(member))
}

/// An error of the one diagnostic given.
pub open spec fn single_error(kind: ErrorKind, location: Location, message: Seq<char>) -> Seq<
    DiagnosticView,
> {
    seq![DiagnosticView { kind, location, message }]
}

/// A location in the declaration itself.
pub open spec fn at_token(span: Span) -> Location {
    Location { member: None, place: Place::Token(span) }
}

impl Location {
    /// The location of a token of an option list of the declaration.
    pub fn token(span: Span) -> (r: Location)
        ensures
            r == at_token(span),
    {
        Location { member: None, place: Place::Token(span) }
    }

    /// The location of an attribute of the declaration.
    pub fn attribute(attr: usize) -> (r: Location)
        ensures
            r == (Location { member: None, place: Place::Attribute(attr) }),
    {
        Location { member: None, place: Place::Attribute(attr) }
    }

    /// The location of the declaration itself.
    pub fn declaration() -> (r: Location)
        ensures
            r == (Location { member: None, place: Place::Declaration }),
    {
        Location { member: None, place: Place::Declaration }
    }
}

impl Diagnostic {
    /// A copy of the diagnostic.
    pub fn duplicate(&self) -> (r: Diagnostic)
        ensures
            r@ == self@,
    {
        Diagnostic { kind: self.kind, location: self.location, message: self.message.clone() }
    }
}

impl BuildError {
    /// An error of one diagnostic.
    pub fn new(kind: ErrorKind, location: Location, message: &str) -> (r: BuildError)
        ensures
            r@ == single_error(kind, location, message@),
    {
        let r = BuildError {
            first: Diagnostic { kind, location, message: message.to_owned() },
            rest: Vec::new(),
        };
        assert(r@ =~= single_error(kind, location, message@));
        r
    }

    /// The kind of the error: that of its first diagnostic.
    pub fn kind(&self) -> (r: ErrorKind)
        ensures
            r == self@[0].kind,
    {
        self.first.kind
    }

    /// The diagnostic at position `i`, if there are that many.
    pub fn get(&self, i: usize) -> (r: Option<&Diagnostic>)
        ensures
            i < self@.len() ==> (r matches Some(d) && d@ == self@[i as int]),
            i >= self@.len() ==> r is None,
    {
        if i == 0 {
            Some(&self.first)
        } else if i - 1 < self.rest.len() {
            Some(&self.rest[i - 1])
        } else {
            None
        }
    }

    /// Adds one more diagnostic at the end.
    pub fn push(&mut self, kind: ErrorKind, location: Location, message: &str)
        ensures
            final(self)@ == old(self)@ + single_error(kind, location, message@),
    {
        self.rest.push(Diagnostic { kind, location, message: message.to_owned() });
        assert(self@ =~= old(self)@ + single_error(kind, location, message@));
    }

    /// Merges `other` into this error: its diagnostics follow the ones that
    /// are here already.
    pub fn combine(&mut self, other: BuildError)
        ensures
            final(self)@ == old(self)@ + other@,
    {
        let BuildError { first, rest } = other;
        let ghost start = diagnostic_views(self.rest@);
        let ghost added = diagnostic_views(rest@);
        self.rest.push(first);
        assert(diagnostic_views(self.rest@) =~= start.push(first@));
        let mut i: usize = 0;
        while i < rest.len()
            invariant
                i <= rest.len(),
                self.first == old(self).first,
                added == diagnostic_views(rest@),
                diagnostic_views(self.rest@) == start.push(first@) + added.take(i as int),
            decreases rest.len() - i,
        {
            let d = rest[i].duplicate();
            let ghost before = diagnostic_views(self.rest@);
            self.rest.push(d);
            assert(diagnostic_views(self.rest@) =~= before.push(d@));
            i += 1;
            assert(added.take(i as int) =~= added.take(i - 1).push(added[i - 1]));
            assert(diagnostic_views(self.rest@) =~= start.push(first@) + added.take(i as int));
        }
        assert(added.take(rest.len() as int) =~= added);
        assert(self@ =~= old(self)@ + other@);
    }

    /// The same error, anchored in the member at position `member`.
    pub fn in_member(self, member: usize) -> (r: BuildError)
        ensures
            r@ == in_member(self@, member),
    {
        let BuildError { first, rest } = self;
        let ghost moved = |d: DiagnosticView| d.in_member(member);
        let ghost tail = diagnostic_views(rest@);
        let mut moved_rest: Vec<Diagnostic> = Vec::new();
        let mut i: usize = 0;
        assert(diagnostic_views(moved_rest@) =~= tail.map_values(moved).take(0));
        while i < rest.len()
            invariant
                i <= rest.len(),
                tail == diagnostic_views(rest@),
                moved == |d: DiagnosticView| d.in_member(member),
                diagnostic_views(moved_rest@) == tail.map_values(moved).take(i as int),
            decreases rest.len() - i,
        {
            let d = &rest[i];
            let ghost before = diagnostic_views(moved_rest@);
            let m = Diagnostic {
                kind: d.kind,
                location: Location { member: Some(member), place: d.location.place },
                message: d.message.clone(),
            };
            moved_rest.push(m);
            assert(diagnostic_views(moved_rest@) =~= before.push(m@));
            i += 1;
            assert(tail.map_values(moved).take(i as int) =~= tail.map_values(moved).take(
                i - 1,
            ).push(moved(tail[i - 1])));
        }
        assert(tail.map_values(moved).take(rest.len() as int) =~= tail.map_values(moved));
        let out = BuildError {
            first: Diagnostic {
                kind: first.kind,
                location: Location { member: Some(member), place: first.location.place },
                message: first.message,
            },
            rest: moved_rest,
        };
        assert(out@ =~= self@.map_values(moved));
        out
    }
}

/// What a lookup of documentation by name can fail with at run time.
#[derive(Clone, Debug, PartialEq, Eq)]
pub enum Error {
    /// The requested field does not have doc comments.
    NoDocComments(String),
    /// The requested field does not exist.
    NoSuchField(String),
}

/// What a [`Error`] holds, with its texts as sequences of characters.
pub enum ErrorView {
    NoDocComments(Seq<char>),
    NoSuchField(Seq<char>),
}

impl View for Error {
    type V = ErrorView;

    open spec fn view(&self) -> ErrorView {
        match self {
            Error::NoDocComments(name) => ErrorView::NoDocComments(name@),
            Error::NoSuchField(name) => ErrorView::NoSuchField(name@),
        }
    }
}

impl ErrorView {
    /// The text of the error.
    pub open spec fn message(self) -> Seq<char> {
        match self {
            ErrorView::NoDocComments(name) => "The field \""@ + name + "\" has no doc comments"@,
            ErrorView::NoSuchField(name) => "No field named \""@ + name + "\" exists"@,
        }
    }
}

impl Error {
    /// The text of the error.
    pub fn message(&self) -> (r: String)
        ensures
            r@ == self@.message(),
    {
        match self {
            Error::NoDocComments(name) => {
                let mut s = String::from_str("The field \"");
                s.append(name.as_str());
                s.append("\" has no doc comments");
                s
            },
            Error::NoSuchField(name) => {
                let mut s = String::from_str("No field named \"");
                s.append(name.as_str());
                s.append("\" exists");
                s
            },
        }
    }
}

} // verus!
