//! The fixed table from logical UI targets to CSS selector lists.
use vstd::prelude::*;

verus! {

/// A logical UI target of the workflow.
#[derive(Clone, Copy, Debug, PartialEq, Eq, Structural)]
pub enum CriticalSelectors {
    ApplyButton,
    ApplicationForm,
    ManualApply,
    EmailInput,
    PasswordInput,
    VerifyPasswordInput,
    SubmitButton,
    ConsentCheckbox,
}

/// Characters of an identifier, a tag name or an attribute name.
pub open spec fn is_name_char(c: char) -> bool {
    ('a' <= c && c <= 'z') || ('A' <= c && c <= 'Z') || ('0' <= c && c <= '9') || c == '-' || c
        == '_'
}

/// Characters that may appear outside an attribute test: names, the
/// id/class/universal markers, pseudo-class colons and combinators.
pub open spec fn is_outer_char(c: char) -> bool {
    is_name_char(c) || c == '#' || c == '.' || c == '*' || c == ':' || c == ' ' || c == '~' || c
        == '>' || c == '+'
}

/// Scans `s` from position `i`: attribute tests `[...]` are closed and not
/// nested, quoted values inside them are closed, and outside them only
/// `is_outer_char` characters appear (in particular no comma).
pub open spec fn scan_complex(s: Seq<char>, i: nat, in_bracket: bool, quote: Option<char>) -> bool
    decreases s.len() - i,
{
    if i >= s.len() {
        !in_bracket && quote is None
    } else {
        let c = s[i as int];
        match quote {
            Some(q) => if c == q {
                scan_complex(s, i + 1, true, None)
            } else {
                scan_complex(s, i + 1, true, quote)
            },
            None => if in_bracket {
                if c == ']' {
                    scan_complex(s, i + 1, false, None)
                } else if c == '\'' || c == '"' {
                    scan_complex(s, i + 1, true, Some(c))
                } else if c == '[' || c == ',' {
                    false
                } else {
                    scan_complex(s, i + 1, true, None)
                }
            } else {
                if c == '[' {
                    scan_complex(s, i + 1, true, None)
                } else if is_outer_char(c) {
                    scan_complex(s, i + 1, false, None)
                } else {
                    false
                }
            },
        }
    }
}

/// One complex selector: non-empty, not starting or ending in a space, and
/// well formed as `scan_complex` describes.
pub open spec fn valid_complex_selector(s: Seq<char>) -> bool {
    &&& s.len() > 0
    &&& s[0] != ' '
    &&& s[s.len() - 1] != ' '
    &&& scan_complex(s, 0, false, None)
}

/// A selector list: at least one alternative, each a valid complex selector.
pub open spec fn valid_selector_list(alts: Seq<Seq<char>>) -> bool {
    &&& alts.len() > 0
    &&& forall|i: int| 0 <= i < alts.len() ==> valid_complex_selector(#[trigger] alts[i])
}

/// The text of a selector list: its alternatives joined by `", "`.
pub open spec fn join_selectors(alts: Seq<Seq<char>>) -> Seq<char>
    decreases alts.len(),
{
    if alts.len() == 0 {
        Seq::empty()
    } else if alts.len() == 1 {
        alts[0]
    } else {
        alts[0] + ", "@ + join_selectors(alts.drop_first())
    }
}

/// The human-readable name of each target.
pub open spec fn description_of(t: CriticalSelectors) -> Seq<char> {
    match t {
        CriticalSelectors::ApplyButton => "Apply Button"@,
        CriticalSelectors::ApplicationForm => "Application Form"@,
        CriticalSelectors::ManualApply => "Manual Apply Button"@,
        CriticalSelectors::EmailInput => "Email Input"@,
        CriticalSelectors::PasswordInput => "Password Input"@,
        CriticalSelectors::VerifyPasswordInput => "Verify Password Input"@,
        CriticalSelectors::SubmitButton => "Submit Button"@,
        CriticalSelectors::ConsentCheckbox => "Consent Checkbox"@,
    }
}

/// The alternatives that make up the selector list of each target.
pub open spec fn alternatives(t: CriticalSelectors) -> Seq<Seq<char>> {
    match t {
        CriticalSelectors::ApplyButton => seq![
            "a[role='button'][data-automation-id='adventureButton']"@,
            "a[role='button'][data-uxi-element-id*='Apply']"@,
        ],
        CriticalSelectors::ApplicationForm => seq![
            "form[data-automation-id='signInFormo']"@,
            "div[data-automation-id='signInContent']"@,
            "div[data-automation-id='applyFlowPage']"@,
        ],
        CriticalSelectors::ManualApply => seq![
            "a[role='button'][data-automation-id='applyManually']"@,
        ],
        CriticalSelectors::EmailInput => seq!["input[data-automation-id='email']"@],
        CriticalSelectors::PasswordInput => seq!["input[data-automation-id='password']"@],
        CriticalSelectors::VerifyPasswordInput => seq![
            "input[data-automation-id='verifyPassword']"@,
        ],
        CriticalSelectors::ConsentCheckbox => seq![
            "#input-8"@,
            "input[data-automation-id='createAccountCheckbox']"@,
            ".css-d3pjdr input[type='checkbox']"@,
            "label[for='input-8'] ~ div input"@,
        ],
        CriticalSelectors::SubmitButton => seq![
            "button[data-automation-id='createAccountSubmitButton']"@,
            "button.css-r4e0dj[type='submit']"@,
        ],
    }
}

impl CriticalSelectors {
    /// A short human-readable name of the target.
    pub fn description(&self) -> (r: &'static str)
        ensures
            r@ == description_of(*self),
    {
        match self {
            CriticalSelectors::ApplyButton => "Apply Button",
            CriticalSelectors::ApplicationForm => "Application Form",
            CriticalSelectors::ManualApply => "Manual Apply Button",
            CriticalSelectors::EmailInput => "Email Input",
            CriticalSelectors::PasswordInput => "Password Input",
            CriticalSelectors::VerifyPasswordInput => "Verify Password Input",
            CriticalSelectors::SubmitButton => "Submit Button",
            CriticalSelectors::ConsentCheckbox => "Consent Checkbox",
        }
    }

    /// The CSS selector list of this target.
    pub fn selector(&self) -> (r: &'static str)
        ensures
            r@ == join_selectors(alternatives(*self)),
    {
        match self {
            CriticalSelectors::ApplyButton => {
                let r = "a[role='button'][data-automation-id='adventureButton'], a[role='button'][data-uxi-element-id*='Apply']";
                proof {
                    reveal_strlit("a[role='button'][data-automation-id='adventureButton'], a[role='button'][data-uxi-element-id*='Apply']");
                    reveal_strlit("a[role='button'][data-automation-id='adventureButton']");
                    reveal_strlit("a[role='button'][data-uxi-element-id*='Apply']");
                    reveal_strlit(", ");
                    reveal_with_fuel(join_selectors, 3);
                    assert(r@ =~= join_selectors(alternatives(*self)));
                }
                r
            },
            CriticalSelectors::ApplicationForm => {
                let r = "form[data-automation-id='signInFormo'], div[data-automation-id='signInContent'], div[data-automation-id='applyFlowPage']";
                proof {
                    reveal_strlit("form[data-automation-id='signInFormo'], div[data-automation-id='signInContent'], div[data-automation-id='applyFlowPage']");
                    reveal_strlit("form[data-automation-id='signInFormo']");
                    reveal_strlit("div[data-automation-id='signInContent']");
                    reveal_strlit("div[data-automation-id='applyFlowPage']");
                    reveal_strlit(", ");
                    reveal_with_fuel(join_selectors, 4);
                    assert(r@ =~= join_selectors(alternatives(*self)));
                }
                r
            },
            CriticalSelectors::ManualApply => {
                let r = "a[role='button'][data-automation-id='applyManually']";
                proof {
                    reveal_strlit("a[role='button'][data-automation-id='applyManually']");
                    reveal_strlit("a[role='button'][data-automation-id='applyManually']");
                    reveal_with_fuel(join_selectors, 2);
                    assert(r@ =~= join_selectors(alternatives(*self)));
                }
                r
            },
            CriticalSelectors::EmailInput => {
                let r = "input[data-automation-id='email']";
                proof {
                    reveal_strlit("input[data-automation-id='email']");
                    reveal_strlit("input[data-automation-id='email']");
                    reveal_with_fuel(join_selectors, 2);
                    assert(r@ =~= join_selectors(alternatives(*self)));
                }
                r
            },
            CriticalSelectors::PasswordInput => {
                let r = "input[data-automation-id='password']";
                proof {
                    reveal_strlit("input[data-automation-id='password']");
                    reveal_strlit("input[data-automation-id='password']");
                    reveal_with_fuel(join_selectors, 2);
                    assert(r@ =~= join_selectors(alternatives(*self)));
                }
                r
            },
            CriticalSelectors::VerifyPasswordInput => {
                let r = "input[data-automation-id='verifyPassword']";
                proof {
                    reveal_strlit("input[data-automation-id='verifyPassword']");
                    reveal_strlit("input[data-automation-id='verifyPassword']");
                    reveal_with_fuel(join_selectors, 2);
                    assert(r@ =~= join_selectors(alternatives(*self)));
                }
                r
            },
            CriticalSelectors::ConsentCheckbox => {
                let r = "#input-8, input[data-automation-id='createAccountCheckbox'], .css-d3pjdr input[type='checkbox'], label[for='input-8'] ~ div input";
                proof {
                    reveal_strlit("#input-8, input[data-automation-id='createAccountCheckbox'], .css-d3pjdr input[type='checkbox'], label[for='input-8'] ~ div input");
                    reveal_strlit("#input-8");
                    reveal_strlit("input[data-automation-id='createAccountCheckbox']");
                    reveal_strlit(".css-d3pjdr input[type='checkbox']");
                    reveal_strlit("label[for='input-8'] ~ div input");
                    reveal_strlit(", ");
                    reveal_with_fuel(join_selectors, 5);
                    assert(r@ =~= join_selectors(alternatives(*self)));
                }
                r
            },
            CriticalSelectors::SubmitButton => {
                let r = "button[data-automation-id='createAccountSubmitButton'], button.css-r4e0dj[type='submit']";
                proof {
                    reveal_strlit("button[data-automation-id='createAccountSubmitButton'], button.css-r4e0dj[type='submit']");
                    reveal_strlit("button[data-automation-id='createAccountSubmitButton']");
                    reveal_strlit("button.css-r4e0dj[type='submit']");
                    reveal_strlit(", ");
                    reveal_with_fuel(join_selectors, 3);
                    assert(r@ =~= join_selectors(alternatives(*self)));
                }
                r
            },
        }
    }
}

/// Every target's selector list is non-empty, and each of its alternatives is
/// a well-formed complex selector.
pub proof fn lemma_selectors_valid(t: CriticalSelectors)
    ensures
        valid_selector_list(alternatives(t)),
        join_selectors(alternatives(t)).len() > 0,
{
    let a = alternatives(t);
    reveal_with_fuel(scan_complex, 60);
    match t {
        CriticalSelectors::ApplyButton => {
            reveal_strlit("a[role='button'][data-automation-id='adventureButton']");
            reveal_strlit("a[role='button'][data-uxi-element-id*='Apply']");
            assert("a[role='button'][data-automation-id='adventureButton']"@.len() == 54);
            assert("a[role='button'][data-uxi-element-id*='Apply']"@.len() == 46);
            assert(valid_complex_selector(a[0]));
            assert(valid_complex_selector(a[1]));
            assert forall|i: int| 0 <= i < a.len() implies valid_complex_selector(#[trigger] a[i]) by {
                if i == 0 {
                }
            }
        },
        CriticalSelectors::ApplicationForm => {
            reveal_strlit("form[data-automation-id='signInFormo']");
            reveal_strlit("div[data-automation-id='signInContent']");
            reveal_strlit("div[data-automation-id='applyFlowPage']");
            assert("form[data-automation-id='signInFormo']"@.len() == 38);
            assert("div[data-automation-id='signInContent']"@.len() == 39);
            assert("div[data-automation-id='applyFlowPage']"@.len() == 39);
            assert(valid_complex_selector(a[0]));
            assert(valid_complex_selector(a[1]));
            assert(valid_complex_selector(a[2]));
            assert forall|i: int| 0 <= i < a.len() implies valid_complex_selector(#[trigger] a[i]) by {
                if i == 0 {
                } else if i == 1 {
                }
            }
        },
        CriticalSelectors::ManualApply => {
            reveal_strlit("a[role='button'][data-automation-id='applyManually']");
            assert("a[role='button'][data-automation-id='applyManually']"@.len() == 52);
            assert(valid_complex_selector(a[0]));
        },
        CriticalSelectors::EmailInput => {
            reveal_strlit("input[data-automation-id='email']");
            assert("input[data-automation-id='email']"@.len() == 33);
            assert(valid_complex_selector(a[0]));
        },
        CriticalSelectors::PasswordInput => {
            reveal_strlit("input[data-automation-id='password']");
            assert("input[data-automation-id='password']"@.len() == 36);
            assert(valid_complex_selector(a[0]));
        },
        CriticalSelectors::VerifyPasswordInput => {
            reveal_strlit("input[data-automation-id='verifyPassword']");
            assert("input[data-automation-id='verifyPassword']"@.len() == 42);
            assert(valid_complex_selector(a[0]));
        },
        CriticalSelectors::ConsentCheckbox => {
            reveal_strlit("#input-8");
            reveal_strlit("input[data-automation-id='createAccountCheckbox']");
            reveal_strlit(".css-d3pjdr input[type='checkbox']");
            reveal_strlit("label[for='input-8'] ~ div input");
            assert("#input-8"@.len() == 8);
            assert("input[data-automation-id='createAccountCheckbox']"@.len() == 49);
            assert(".css-d3pjdr input[type='checkbox']"@.len() == 34);
            assert("label[for='input-8'] ~ div input"@.len() == 32);
            assert(valid_complex_selector(a[0]));
            assert(valid_complex_selector(a[1]));
            assert(valid_complex_selector(a[2]));
            assert(valid_complex_selector(a[3]));
            assert forall|i: int| 0 <= i < a.len() implies valid_complex_selector(#[trigger] a[i]) by {
                if i == 0 {
                } else if i == 1 {
                } else if i == 2 {
                }
            }
        },
        CriticalSelectors::SubmitButton => {
            reveal_strlit("button[data-automation-id='createAccountSubmitButton']");
            reveal_strlit("button.css-r4e0dj[type='submit']");
            assert("button[data-automation-id='createAccountSubmitButton']"@.len() == 54);
            assert("button.css-r4e0dj[type='submit']"@.len() == 32);
            assert(valid_complex_selector(a[0]));
            assert(valid_complex_selector(a[1]));
            assert forall|i: int| 0 <= i < a.len() implies valid_complex_selector(#[trigger] a[i]) by {
                if i == 0 {
                }
            }
        },
    }
    assert(join_selectors(a).len() > 0) by {
        reveal_with_fuel(join_selectors, 2);
    }
}

} // verus!
