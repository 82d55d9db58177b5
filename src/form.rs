use vstd::prelude::*;

verus! {

/// Number of fields of the short form.
pub const MINIMAL_FIELDS: usize = 5;

/// Number of fields of the full form.
pub const EXTENDED_FIELDS: usize = 13;

/// One labelled piece of project metadata.
pub struct Field {
    pub name: String,
    pub value: String,
    pub description: String,
}

/// Whether keys move between fields or edit the active one.
#[derive(Clone, Copy, Debug, PartialEq, Eq, Structural)]
pub enum InputMode {
    Navigation,
    Editing,
}

/// The keys that the form reacts to.
#[derive(Clone, Copy, Debug, PartialEq, Eq, Structural)]
pub enum Key {
    Char(char),
    Up,
    Down,
    Enter,
    Tab,
    Backspace,
    Esc,
    Other,
}

/// What the session does after a key.
#[derive(Clone, Copy, Debug, PartialEq, Eq, Structural)]
pub enum Outcome {
    /// Keep reading keys.
    Continue,
    /// End without writing a document.
    Quit,
    /// End and write the document.
    Complete,
}

/// The abstract state of a form: the mode, the committed values, the active
/// field, the edit buffer and the selected license.
pub struct FormModel {
    pub mode: InputMode,
    pub values: Seq<Seq<char>>,
    pub current: nat,
    pub buffer: Seq<char>,
    pub license: nat,
}

/// Every value is non-empty.
pub open spec fn all_filled(values: Seq<Seq<char>>) -> bool {
    forall|i: int| 0 <= i < values.len() ==> (#[trigger] values[i]).len() > 0
}

/// The state in which a form with `n` fields starts.
pub open spec fn initial_model(n: nat) -> FormModel {
    FormModel {
        mode: InputMode::Navigation,
        values: Seq::new(n, |i: int| Seq::<char>::empty()),
        current: 0,
        buffer: Seq::empty(),
        license: 0,
    }
}

/// The state after a key, and what the session does next.
pub open spec fn step(m: FormModel, key: Key) -> (FormModel, Outcome) {
    match m.mode {
        InputMode::Navigation => match key {
            Key::Char(c) => if c == 'q' { (m, Outcome::Quit) } else { (m, Outcome::Continue) },
            Key::Down => if m.current + 1 < m.values.len() {
                (FormModel { current: m.current + 1, ..m }, Outcome::Continue)
            } else {
                (m, Outcome::Continue)
            },
            Key::Up => if m.current > 0 {
                (FormModel { current: (m.current - 1) as nat, ..m }, Outcome::Continue)
            } else {
                (m, Outcome::Continue)
            },
            Key::Enter => (
                FormModel { mode: InputMode::Editing, buffer: m.values[m.current as int], ..m },
                Outcome::Continue,
            ),
            Key::Tab => if all_filled(m.values) {
                (m, Outcome::Complete)
            } else {
                (m, Outcome::Continue)
            },
            _ => (m, Outcome::Continue),
        },
        InputMode::Editing => match key {
            Key::Enter => {
                let values = m.values.update(m.current as int, m.buffer);
                if m.current + 1 < m.values.len() {
                    (
                        FormModel {
                            values,
                            current: m.current + 1,
                            buffer: values[(m.current + 1) as int],
                            ..m
                        },
                        Outcome::Continue,
                    )
                } else {
                    (
                        FormModel {
                            mode: InputMode::Navigation,
                            values,
                            buffer: Seq::empty(),
                            ..m
                        },
                        Outcome::Continue,
                    )
                }
            },
            Key::Char(c) => (FormModel { buffer: m.buffer.push(c), ..m }, Outcome::Continue),
            Key::Backspace => if m.buffer.len() > 0 {
                (FormModel { buffer: m.buffer.drop_last(), ..m }, Outcome::Continue)
            } else {
                (m, Outcome::Continue)
            },
            Key::Esc => (
                FormModel { mode: InputMode::Navigation, buffer: Seq::empty(), ..m },
                Outcome::Continue,
            ),
            _ => (m, Outcome::Continue),
        },
    }
}

/// The committed values of the fields, in order.
pub open spec fn values_of(fields: Seq<Field>) -> Seq<Seq<char>> {
    fields.map_values(|f: Field| f.value@)
}

/// The names of the fields, in order.
pub open spec fn names_of(fields: Seq<Field>) -> Seq<Seq<char>> {
    fields.map_values(|f: Field| f.name@)
}

/// The help texts of the fields, in order.
pub open spec fn descriptions_of(fields: Seq<Field>) -> Seq<Seq<char>> {
    fields.map_values(|f: Field| f.description@)
}

/// The form: its fields, the license catalog with its selection, the active
/// field, the mode and the edit buffer.
pub struct App {
    pub input: String,
    pub input_mode: InputMode,
    pub fields: Vec<Field>,
    pub current_field: usize,
    pub license_options: Vec<String>,
    pub selected_license: usize,
}

impl View for App {
    type V = FormModel;

    open spec fn view(&self) -> FormModel {
        FormModel {
            mode: self.input_mode,
            values: values_of(self.fields@),
            current: self.current_field as nat,
            buffer: self.input@,
            license: self.selected_license as nat,
        }
    }
}

impl App {
    /// The form has one of the two sizes, an active field and a selected
    /// license within range.
    pub open spec fn wf(&self) -> bool {
        &&& (self.fields@.len() == MINIMAL_FIELDS || self.fields@.len() == EXTENDED_FIELDS)
        &&& self.current_field < self.fields@.len()
        &&& self.selected_license < self.license_options@.len()
    }

    /// `other` has the same field names, help texts and license catalog.
    pub open spec fn same_shape(&self, other: &App) -> bool {
        &&& names_of(self.fields@) == names_of(other.fields@)
        &&& descriptions_of(self.fields@) == descriptions_of(other.fields@)
        &&& self.fields@.len() == other.fields@.len()
        &&& self.license_options@ == other.license_options@
    }

    /// Whether every field holds a non-empty value.
    pub fn all_fields_filled(&self) -> (r: bool)
        ensures
            r == all_filled(values_of(self.fields@)),
    {
        let mut i: usize = 0;
        while i < self.fields.len()
            invariant
                i <= self.fields@.len(),
                forall|j: int| 0 <= j < i ==> (#[trigger] self.fields@[j]).value@.len() > 0,
            decreases self.fields@.len() - i,
        {
            if self.fields[i].value.as_str().is_empty() {
                assert(values_of(self.fields@)[i as int].len() == 0);
                return false;
            }
            i = i + 1;
        }
        assert forall|j: int| 0 <= j < values_of(self.fields@).len() implies
            (#[trigger] values_of(self.fields@)[j]).len() > 0 by {
            assert(self.fields@[j].value@.len() > 0);
        }
        true
    }

    /// Applies one key: moves between fields, enters or leaves editing,
    /// edits the buffer, commits it, or ends the session.
    pub fn handle_key(&mut self, key: Key) -> (r: Outcome)
        requires
            old(self).wf(),
        ensures
            final(self).wf(),
            final(self).same_shape(old(self)),
            (final(self)@, r) == step(old(self)@, key),
    {
        let n = self.fields.len();
        match self.input_mode {
            InputMode::Navigation => match key {
                Key::Char(c) => {
                    if c == 'q' {
                        return Outcome::Quit;
                    }
                },
                Key::Down => {
                    if self.current_field + 1 < n {
                        self.current_field = self.current_field + 1;
                    }
                },
                Key::Up => {
                    if self.current_field > 0 {
                        self.current_field = self.current_field - 1;
                    }
                },
                Key::Enter => {
                    self.input_mode = InputMode::Editing;
                    self.input = self.fields[self.current_field].value.clone();
                },
                Key::Tab => {
                    if self.all_fields_filled() {
                        return Outcome::Complete;
                    }
                },
                _ => {},
            },
            InputMode::Editing => match key {
                Key::Enter => {
                    let mut committed = String::new();
                    std::mem::swap(&mut committed, &mut self.input);
                    let cur = self.current_field;
                    self.fields[cur].value = committed;
                    if cur + 1 < n {
                        self.current_field = cur + 1;
                        self.input = self.fields[cur + 1].value.clone();
                    } else {
                        self.input_mode = InputMode::Navigation;
                    }
                },
                Key::Char(c) => {
                    push_char(&mut self.input, c);
                },
                Key::Backspace => {
                    pop_char(&mut self.input);
                },
                Key::Esc => {
                    self.input = String::new();
                    self.input_mode = InputMode::Navigation;
                },
                _ => {},
            },
        }
        proof {
            assert(values_of(self.fields@) =~= step(old(self)@, key).0.values);
            assert(names_of(self.fields@) =~= names_of(old(self).fields@));
            assert(descriptions_of(self.fields@) =~= descriptions_of(old(self).fields@));
        }
        Outcome::Continue
    }
}

/// Names of the fields of the full form.
pub open spec fn extended_names() -> Seq<Seq<char>> {
    seq![
        "Repository Name"@,
        "Project Title"@,
        "Short Description"@,
        "Detailed Description"@,
        "Features"@,
        "Technologies"@,
        "Prerequisites"@,
        "Installation"@,
        "Usage Example"@,
        "API Documentation"@,
        "Contributing Guidelines"@,
        "Tests"@,
        "Authors"@,
    ]
}

/// Help texts of the fields of the full form.
pub open spec fn extended_descriptions() -> Seq<Seq<char>> {
    seq![
        "The name of your project/repository (e.g., username/repo)"@,
        "A catchy title for your project"@,
        "A brief one-line description of your project"@,
        "A detailed explanation of what your project does and why it's useful"@,
        "Key features of your project (separate with semicolons)"@,
        "Technologies used (separate with semicolons) e.g., React;TypeScript;Node.js"@,
        "Required software/tools to run your project (separate with semicolons)"@,
        "Step-by-step installation instructions (separate steps with semicolons)"@,
        "Example code or commands to use your project"@,
        "Brief API documentation or endpoints (optional)"@,
        "How others can contribute to your project"@,
        "How to run tests (separate steps with semicolons)"@,
        "Project authors/maintainers (separate with semicolons)"@,
    ]
}

/// Names of the fields of the short form.
pub open spec fn minimal_names() -> Seq<Seq<char>> {
    seq![
        "Repository Name"@,
        "Description"@,
        "Installation"@,
        "Usage"@,
        "Authors"@,
    ]
}

/// Help texts of the fields of the short form.
pub open spec fn minimal_descriptions() -> Seq<Seq<char>> {
    seq![
        "The name of your project/repository (e.g., username/repo)"@,
        "A brief description of your project"@,
        "Step-by-step installation instructions (separate steps with semicolons)"@,
        "Example code or commands to use your project"@,
        "Project authors/maintainers (separate with semicolons)"@,
    ]
}

/// The license catalog, in order; the first entry is the default.
pub open spec fn license_names() -> Seq<Seq<char>> {
    seq![
        "MIT License"@,
        "Apache License 2.0"@,
        "GNU GPL v3"@,
        "BSD 3-Clause"@,
        "ISC License"@,
    ]
}

fn new_field(name: &str, description: &str) -> (f: Field)
    ensures
        f.name@ == name@,
        f.value@ == Seq::<char>::empty(),
        f.description@ == description@,
{
    Field { name: String::from_str(name), value: String::new(), description: String::from_str(description) }
}

fn extended_fields() -> (r: Vec<Field>)
    ensures
        r@.len() == EXTENDED_FIELDS,
        names_of(r@) == extended_names(),
        descriptions_of(r@) == extended_descriptions(),
        values_of(r@) == initial_model(EXTENDED_FIELDS as nat).values,
{
    let mut fields: Vec<Field> = Vec::new();
    fields.push(new_field("Repository Name", "The name of your project/repository (e.g., username/repo)"));
    fields.push(new_field("Project Title", "A catchy title for your project"));
    fields.push(new_field("Short Description", "A brief one-line description of your project"));
    fields.push(new_field("Detailed Description", "A detailed explanation of what your project does and why it's useful"));
    fields.push(new_field("Features", "Key features of your project (separate with semicolons)"));
    fields.push(new_field("Technologies", "Technologies used (separate with semicolons) e.g., React;TypeScript;Node.js"));
    fields.push(new_field("Prerequisites", "Required software/tools to run your project (separate with semicolons)"));
    fields.push(new_field("Installation", "Step-by-step installation instructions (separate steps with semicolons)"));
    fields.push(new_field("Usage Example", "Example code or commands to use your project"));
    fields.push(new_field("API Documentation", "Brief API documentation or endpoints (optional)"));
    fields.push(new_field("Contributing Guidelines", "How others can contribute to your project"));
    fields.push(new_field("Tests", "How to run tests (separate steps with semicolons)"));
    fields.push(new_field("Authors", "Project authors/maintainers (separate with semicolons)"));
    assert(names_of(fields@) =~= extended_names());
    assert(descriptions_of(fields@) =~= extended_descriptions());
    assert(values_of(fields@) =~= initial_model(EXTENDED_FIELDS as nat).values);
    fields
}

fn minimal_fields() -> (r: Vec<Field>)
    ensures
        r@.len() == MINIMAL_FIELDS,
        names_of(r@) == minimal_names(),
        descriptions_of(r@) == minimal_descriptions(),
        values_of(r@) == initial_model(MINIMAL_FIELDS as nat).values,
{
    let mut fields: Vec<Field> = Vec::new();
    fields.push(new_field("Repository Name", "The name of your project/repository (e.g., username/repo)"));
    fields.push(new_field("Description", "A brief description of your project"));
    fields.push(new_field("Installation", "Step-by-step installation instructions (separate steps with semicolons)"));
    fields.push(new_field("Usage", "Example code or commands to use your project"));
    fields.push(new_field("Authors", "Project authors/maintainers (separate with semicolons)"));
    assert(names_of(fields@) =~= minimal_names());
    assert(descriptions_of(fields@) =~= minimal_descriptions());
    assert(values_of(fields@) =~= initial_model(MINIMAL_FIELDS as nat).values);
    fields
}

fn license_catalog() -> (r: Vec<String>)
    ensures
        r@.len() == 5,
        r@.map_values(|l: String| l@) == license_names(),
{
    let mut licenses: Vec<String> = Vec::new();
    licenses.push(String::from_str("MIT License"));
    licenses.push(String::from_str("Apache License 2.0"));
    licenses.push(String::from_str("GNU GPL v3"));
    licenses.push(String::from_str("BSD 3-Clause"));
    licenses.push(String::from_str("ISC License"));
    assert(licenses@.map_values(|l: String| l@) =~= license_names());
    licenses
}

impl Default for App {
    /// The full form, in navigation, on the first field, with every value
    /// empty and the first license selected.
    fn default() -> (r: App)
        ensures
            r.wf(),
            r@ == initial_model(EXTENDED_FIELDS as nat),
            names_of(r.fields@) == extended_names(),
            descriptions_of(r.fields@) == extended_descriptions(),
            r.license_options@.map_values(|l: String| l@) == license_names(),
    {
        App {
            input: String::new(),
            input_mode: InputMode::Navigation,
            fields: extended_fields(),
            current_field: 0,
            license_options: license_catalog(),
            selected_license: 0,
        }
    }
}

impl App {
    /// The short form, in navigation, on the first field, with every value
    /// empty and the first license selected.
    pub fn minimal() -> (r: App)
        ensures
            r.wf(),
            r@ == initial_model(MINIMAL_FIELDS as nat),
            names_of(r.fields@) == minimal_names(),
            descriptions_of(r.fields@) == minimal_descriptions(),
            r.license_options@.map_values(|l: String| l@) == license_names(),
    {
        App {
            input: String::new(),
            input_mode: InputMode::Navigation,
            fields: minimal_fields(),
            current_field: 0,
            license_options: license_catalog(),
            selected_license: 0,
        }
    }

    /// Selects the license at `index` of the catalog; an index outside the
    /// catalog changes nothing and gives `false`.
    pub fn select_license(&mut self, index: usize) -> (r: bool)
        requires
            old(self).wf(),
        ensures
            final(self).wf(),
            final(self).same_shape(old(self)),
            r == (index < old(self).license_options@.len()),
            final(self)@ == if r { FormModel { license: index as nat, ..old(self)@ } } else { old(self)@ },
    {
        if index < self.license_options.len() {
            self.selected_license = index;
            true
        } else {
            false
        }
    }
}

/// Relies on `String::push`: appends the character at the end.
#[verifier::external_body]
fn push_char(s: &mut String, c: char)
    ensures
        final(s)@ == old(s)@.push(c),
{
    s.push(c);
}

/// Relies on `String::pop`: removes and returns the last character, or
/// returns `None` and leaves an empty string as it is.
#[verifier::external_body]
fn pop_char(s: &mut String) -> (r: Option<char>)
    ensures
        old(s)@.len() == 0 ==> r.is_none() && final(s)@ == old(s)@,
        old(s)@.len() > 0 ==> r == Some(old(s)@.last()) && final(s)@ == old(s)@.drop_last(),
{
    s.pop()
}

} // verus!
