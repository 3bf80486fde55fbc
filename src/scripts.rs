//! The scripts injected into the page. Each runs in the browser; the
//! workflow only decides when to run them and reads what they report.
use vstd::prelude::*;

verus! {

/// Click fallback: scrolls the element (first argument) into view and clicks
/// it through the DOM.
pub const SCROLL_AND_CLICK: &'static str = "arguments[0].scrollIntoView(true); arguments[0].click();";

/// Text-entry fallback: sets the element's value (first argument) to the
/// text (second argument) and fires an input notification.
pub const SET_VALUE_AND_NOTIFY: &'static str = "arguments[0].value = arguments[1]; arguments[0].dispatchEvent(new Event('input'));";

/// Scrolls the consent checkbox into view, if it is in the page.
pub const SCROLL_CHECKBOX: &'static str = "const checkbox = document.querySelector('#input-8'); if (checkbox) { checkbox.scrollIntoView({block: 'center'}); }";

/// Checks the consent checkbox through its label, forcing the checked state
/// and the event sequence when the label click did not take. Returns `false`
/// when no checkbox is in the page, `true` otherwise.
pub const CHECK_CONSENT: &'static str = "const checkbox = document.querySelector('#input-8') ||
    document.querySelector('input[data-automation-id=\"createAccountCheckbox\"]');
if (!checkbox) return false;
const label = document.querySelector('label[for=\"input-8\"]');
if (label) {
  label.click();
  setTimeout(() => {
    if (!checkbox.checked) {
      checkbox.checked = true;
      checkbox.setAttribute('aria-checked', 'true');
      ['mousedown', 'mouseup', 'click', 'change'].forEach(eventType => {
        checkbox.dispatchEvent(new Event(eventType, {bubbles: true, cancelable: true, composed: true}));
      });
    }
  }, 50);
} else {
  checkbox.click();
  if (checkbox.checked !== !!checkbox.getAttribute('aria-checked')) {
    checkbox.dispatchEvent(new MouseEvent('click', {bubbles: true, cancelable: true, composed: true}));
    checkbox.dispatchEvent(new Event('change', {bubbles: true, cancelable: true}));
  }
  checkbox.checked = true;
}
return true;";

/// Hides the known overlay and every element with a z-index above 100, so
/// that none intercepts the click on the submit control.
pub const CLEAR_OVERLAYS: &'static str = "const overlay = document.querySelector('.css-16klg09');
if (overlay) {
  overlay.style.display = 'none';
  overlay.style.pointerEvents = 'none';
}
document.querySelectorAll('div[style*=\"z-index\"]').forEach(el => {
  const zIndex = parseInt(window.getComputedStyle(el).zIndex);
  if (zIndex > 100) {
    el.style.display = 'none';
    el.style.pointerEvents = 'none';
  }
});";

/// Clicks the submit control (first argument) programmatically, simulates
/// the mouse events, and submits its form if it has one. Returns `true`
/// unless one of these threw.
pub const FORCE_SUBMIT: &'static str = "arguments[0].scrollIntoView({block: 'center'});
try {
  arguments[0].click();
  ['mousedown', 'mouseup', 'click'].forEach(eventType => {
    arguments[0].dispatchEvent(new MouseEvent(eventType, {bubbles: true, cancelable: true, composed: true}));
  });
  const form = arguments[0].closest('form');
  if (form) {
    form.dispatchEvent(new Event('submit', {bubbles: true, cancelable: true}));
    if (typeof form.submit === 'function') {
      form.submit();
    }
  }
  return true;
} catch (err) {
  console.error('Error in JS button click:', err);
  return false;
}";

/// Simulates an Enter keypress on the form of the submit control.
pub const PRESS_ENTER: &'static str = "document.querySelector('form button[type=\"submit\"]').form.dispatchEvent(new KeyboardEvent('keypress', {key: 'Enter', code: 'Enter', keyCode: 13, which: 13, bubbles: true}));";

/// Selector list of the elements that confirm a submission.
pub const CONFIRMATION_SELECTOR: &'static str = "div[data-automation-id*='success'], div[data-automation-id*='confirmation'], .css-success-message, h1, .form-confirmation";

} // verus!
