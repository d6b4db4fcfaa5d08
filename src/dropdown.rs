use vstd::prelude::*;

verus! {

/// How long, in milliseconds, the shell waits before answering a selected
/// dropdown value, to stand for slow work.
pub const PROCESS_DELAY_MS: u64 = 500;

/// One entry of the dropdown: the value sent back when it is chosen, and the
/// text shown for it.
#[derive(Clone, Debug, PartialEq, Eq)]
pub struct DropdownOption {
    pub value: String,
    pub label: String,
}

impl View for DropdownOption {
    type V = (Seq<char>, Seq<char>);

    open spec fn view(&self) -> (Seq<char>, Seq<char>) {
        (self.value@, self.label@)
    }
}

/// The entries of the dropdown, as (value, label) pairs, in the order shown.
pub open spec fn dropdown_entries() -> Seq<(Seq<char>, Seq<char>)> {
    seq![
        ("backend1"@, "Backend Option 1"@),
        ("backend2"@, "Backend Option 2"@),
        ("backend3"@, "Backend Option 3"@),
        ("backend4"@, "Backend Option 4"@),
        ("backend5"@, "Backend Option Neil"@),
    ]
}

fn dropdown_option(value: &str, label: &str) -> (r: DropdownOption)
    ensures
        r@ == (value@, label@),
{
    DropdownOption { value: String::from_str(value), label: String::from_str(label) }
}

/// The dropdown's entries, built fresh on each call. It never fails.
pub fn get_dropdown_options() -> (r: Result<Vec<DropdownOption>, String>)
    ensures
        r is Ok,
        r matches Ok(v) && v.len() == 5 && v@.map_values(|o: DropdownOption| o@)
            == dropdown_entries(),
{
    let mut options: Vec<DropdownOption> = Vec::new();
    options.push(dropdown_option("backend1", "Backend Option 1"));
    options.push(dropdown_option("backend2", "Backend Option 2"));
    options.push(dropdown_option("backend3", "Backend Option 3"));
    options.push(dropdown_option("backend4", "Backend Option 4"));
    options.push(dropdown_option("backend5", "Backend Option Neil"));
    assert(options@.map_values(|o: DropdownOption| o@) =~= dropdown_entries());
    Ok(options)
}

/// Text placed before the selected value in the answer to a selection.
pub open spec fn received_prefix() -> Seq<char> {
    "Received: "@
}

/// The answer to the selection of `value`. The shell waits
/// `PROCESS_DELAY_MS` before it hands this answer back.
pub fn process_dropdown_value(value: &str) -> (r: String)
    ensures
        r@ == received_prefix() + value@,
{
    String::from_str("Received: ").concat(value)
}

} // verus!
