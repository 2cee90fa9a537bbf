use etch::tsx::dialog::derive_import_local_name;
use etch::tsx::error::TsxError;
use etch::tsx::events::{Action, Callback, ElementEvent, ShowToastOptions};
use etch::tsx::nextjs_visitor::{NextjsVisitor, Runtime};

#[test]
fn directive_is_added_once() {
    let v = NextjsVisitor::new(Runtime::Client);
    let mut body = vec![None, Some("other".to_string())];
    v.visit_mut_module(&mut body);
    assert_eq!(body, vec![Some("use client".to_string()), None, Some("other".to_string())]);
    v.visit_mut_module(&mut body);
    assert_eq!(body.len(), 3);
    let server = NextjsVisitor::new(Runtime::Server);
    let mut b = vec![None, Some("use server".to_string())];
    server.visit_mut_module(&mut b);
    assert_eq!(b, vec![None, Some("use server".to_string())]);
}

#[test]
fn import_local_names() {
    assert_eq!(derive_import_local_name("@/components/my-dialog.tsx", None), "MyDialog");
    assert_eq!(derive_import_local_name("./a/b/user_profile card.view.tsx", None), "UserProfileCard");
    assert_eq!(derive_import_local_name("x", Some("Named")), "Named");
    assert_eq!(derive_import_local_name("dir/.hidden", None), "Component");
    assert_eq!(derive_import_local_name("", None), "Component");
}

#[test]
fn handler_names() {
    assert_eq!(ElementEvent::Click.to_handler_name(), "onClick");
    assert_eq!(ElementEvent::TouchCancel.to_handler_name(), "onTouchCancel");
    assert_eq!(ElementEvent::from_handler_name("onHoverStart"), Some(ElementEvent::HoverStart));
    assert_eq!(ElementEvent::from_handler_name("onclick"), None);
    let cb = Callback::new(ElementEvent::Wheel, Action::Toast(ShowToastOptions { message: "hi".to_string() }));
    assert_eq!(cb.trigger, ElementEvent::Wheel);
}

#[test]
fn error_messages() {
    assert_eq!(TsxError::ParseError("x".to_string()).to_string(), "Parse error: x");
    assert_eq!(TsxError::IoError("y".to_string()).to_string(), "IO error: y");
    assert_eq!(TsxError::FromUtf8Error("z".to_string()).to_string(), "FromUtf8Error: z");
}
