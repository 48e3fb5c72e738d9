use ash::vk;
use penguin_engine::messenger::{
    debug_message_severity, message_severity_flags, message_type_flags, message_type_label,
    severity_action, LogLevelFilter, SeverityAction, ValidationReporter, MESSAGE_TYPE_GENERAL,
    MESSAGE_TYPE_PERFORMANCE, MESSAGE_TYPE_VALIDATION, SEVERITY_ERROR, SEVERITY_INFO,
    SEVERITY_VERBOSE, SEVERITY_WARNING,
};
use penguin_engine::validation::{
    find_vuid, parse_vk_general_message, parse_vk_validation_error_message,
    validation_message_well_formed, ValidationError,
};

const DRAW_ERROR: &str = "Validation Error: [ VUID-vkCmdDraw-None-02859 ] Object 0: handle = 0x55d5c0, type = VK_OBJECT_TYPE_COMMAND_BUFFER; Object 1: handle = 0xabc, type = VK_OBJECT_TYPE_PIPELINE; | MessageID = 0x1608dec0 | vkCmdDraw(): VkPipeline 0xabc[] uses set 0 but that set is not bound. The Vulkan spec states: All descriptor sets must be bound (https://vulkan.lunarg.com/doc/view)";

#[test]
fn parses_vuid_objects_message_and_spec() {
    assert!(validation_message_well_formed(DRAW_ERROR));
    let e = parse_vk_validation_error_message(DRAW_ERROR);
    assert_eq!(e.vulkan_id, "vkCmdDraw-None");
    assert_eq!(e.context_objects.len(), 2);
    assert_eq!(e.context_objects[0].index, "0");
    assert_eq!(e.context_objects[0].handle, "0x55d5c0");
    assert_eq!(e.context_objects[0].vk_type, "VK_OBJECT_TYPE_COMMAND_BUFFER");
    assert_eq!(e.context_objects[1].index, "1");
    assert_eq!(e.context_objects[1].handle, "0xabc");
    assert_eq!(e.context_objects[1].vk_type, "VK_OBJECT_TYPE_PIPELINE");
    assert_eq!(
        e.message,
        " vkCmdDraw(): VkPipeline |1| uses set 0 but that set is not bound. "
    );
    assert_eq!(e.spec_info, "All descriptor sets must be bound.");
    assert_eq!(e.spec_link, "(https://vulkan.lunarg.com/doc/view)");
}

#[test]
fn message_without_context_is_kept_whole() {
    let msg = "something went wrong (badly)";
    let e = parse_vk_validation_error_message(msg);
    assert_eq!(e.vulkan_id, "");
    assert_eq!(e.context_objects.len(), 1);
    assert_eq!(e.context_objects[0].index, "");
    assert_eq!(e.context_objects[0].vk_type, "");
    assert_eq!(e.context_objects[0].handle, "");
    assert_eq!(e.message, msg);
    assert_eq!(e.spec_info, "");
    assert_eq!(e.spec_link, "");
}

#[test]
fn message_without_parenthesis_is_kept_whole() {
    let msg = "Validation Error: [ VUID-x-y-1 ] Object 0: handle = 0x1, type = T; | no paren here";
    let e = parse_vk_validation_error_message(msg);
    assert_eq!(e.vulkan_id, "");
    assert_eq!(e.context_objects.len(), 1);
    assert_eq!(e.message, msg);
}

#[test]
fn message_without_spec_text_has_empty_spec_info() {
    let msg = "Error: [ VUID-vkQueueSubmit-fence-00063 ] Object 0: handle = 0x7, type = VK_OBJECT_TYPE_FENCE; | vkQueueSubmit(): fence 0x7 is already in use";
    let e = parse_vk_validation_error_message(msg);
    assert_eq!(e.vulkan_id, "vkQueueSubmit-fence");
    assert_eq!(e.context_objects.len(), 1);
    assert_eq!(e.message, " vkQueueSubmit(): fence |0| is already in use");
    assert_eq!(e.spec_info, "");
    assert_eq!(e.spec_link, "");
}

#[test]
fn context_without_objects_or_spec_text() {
    let e = parse_vk_validation_error_message("Validation Error: [ VUID-x-y-1 ] | f(): bad");
    assert_eq!(e.vulkan_id, "x-y");
    assert!(e.context_objects.is_empty());
    assert_eq!(e.message, " f(): bad");
    assert_eq!(e.spec_info, "");
    assert_eq!(e.spec_link, "");
}

#[test]
fn unknown_handle_and_type_are_named() {
    let msg = "E: [ VUID-a-b-3 ] Object 0: h 5, t 6 | f(x)";
    let e = parse_vk_validation_error_message(msg);
    assert_eq!(e.context_objects.len(), 1);
    assert_eq!(e.context_objects[0].index, "0");
    assert_eq!(e.context_objects[0].handle, "Unknownhandle");
    assert_eq!(e.context_objects[0].vk_type, "Unknowntype");
}

#[test]
fn simple_msg_holds_the_message() {
    let e = ValidationError::simple_msg("plain");
    assert_eq!(e.message, "plain");
    assert_eq!(e.vulkan_id, "");
    assert_eq!(e.context_objects.len(), 1);
}

#[test]
fn general_message_is_unchanged() {
    assert_eq!(parse_vk_general_message("hello | world"), "hello | world");
}

#[test]
fn find_vuid_returns_text_and_bracket() {
    let (v, end) = find_vuid("x [ VUID-a-b ] rest");
    assert_eq!(v, "VUID-a-b ");
    assert_eq!(end, 13);
    let s = "\u{e9} [ VUID-a-b ] rest";
    let (v, end) = find_vuid(s);
    assert_eq!(v, "VUID-a-b ");
    assert_eq!(end, 14);
    assert_eq!(&s[end..end + 1], "]");
    assert_eq!(find_vuid("x [ VUID-a-b-1 ] y"), ("VUID-a-b-1 ".to_string(), 15));
}

#[test]
fn badly_bracketed_message_is_not_well_formed() {
    assert!(!validation_message_well_formed("a ] b [ c ]"));
    assert!(validation_message_well_formed("no context at all"));
}

#[test]
fn severities_map_to_actions() {
    assert_eq!(severity_action(SEVERITY_ERROR), SeverityAction::ReportError);
    assert_eq!(severity_action(SEVERITY_WARNING), SeverityAction::Warn);
    assert_eq!(severity_action(SEVERITY_INFO), SeverityAction::Inform);
    assert_eq!(severity_action(SEVERITY_VERBOSE), SeverityAction::Ignore);
    assert_eq!(severity_action(0x3), SeverityAction::Unknown);
}

#[test]
fn severity_flags_follow_the_log_level() {
    assert_eq!(debug_message_severity(), LogLevelFilter::Debug);
    assert_eq!(message_severity_flags(LogLevelFilter::Off), 0);
    assert_eq!(message_severity_flags(LogLevelFilter::Error), 0x1000);
    assert_eq!(message_severity_flags(LogLevelFilter::Warn), 0x1100);
    assert_eq!(message_severity_flags(LogLevelFilter::Info), 0x1110);
    assert_eq!(message_severity_flags(LogLevelFilter::Debug), 0x1110);
    assert_eq!(message_severity_flags(LogLevelFilter::Trace), 0x1111);
    assert_eq!(message_type_flags(), 7);
}

#[test]
fn message_type_labels() {
    assert_eq!(message_type_label(MESSAGE_TYPE_GENERAL), "[VULKAN GENERAL]");
    assert_eq!(message_type_label(MESSAGE_TYPE_PERFORMANCE), "[VULKAN PERFORMANCE]");
    assert_eq!(message_type_label(MESSAGE_TYPE_VALIDATION), "[VULKAN VALIDATION]");
    assert_eq!(message_type_label(3), "[VULKAN UNKNOWN]");
}

#[test]
fn messenger_constants_match_ash() {
    assert_eq!(SEVERITY_VERBOSE, vk::DebugUtilsMessageSeverityFlagsEXT::VERBOSE.as_raw());
    assert_eq!(SEVERITY_INFO, vk::DebugUtilsMessageSeverityFlagsEXT::INFO.as_raw());
    assert_eq!(SEVERITY_WARNING, vk::DebugUtilsMessageSeverityFlagsEXT::WARNING.as_raw());
    assert_eq!(SEVERITY_ERROR, vk::DebugUtilsMessageSeverityFlagsEXT::ERROR.as_raw());
    assert_eq!(MESSAGE_TYPE_GENERAL, vk::DebugUtilsMessageTypeFlagsEXT::GENERAL.as_raw());
    assert_eq!(MESSAGE_TYPE_VALIDATION, vk::DebugUtilsMessageTypeFlagsEXT::VALIDATION.as_raw());
    assert_eq!(MESSAGE_TYPE_PERFORMANCE, vk::DebugUtilsMessageTypeFlagsEXT::PERFORMANCE.as_raw());
}

const OBJECT_LINES: &str =
    "\t| 0 | VK_OBJECT_TYPE_COMMAND_BUFFER: 0x55d5c0\n\t| 1 | VK_OBJECT_TYPE_PIPELINE: 0xabc\n";

#[test]
fn repeated_error_is_condensed() {
    let mut r = ValidationReporter::new();
    let first = r.error_report(MESSAGE_TYPE_VALIDATION, DRAW_ERROR);
    let expected_first = format!(
        "\n[VULKAN VALIDATION]\n\tvkCmdDraw-None\n{}\nMSG: {}\n\nISSUE: {}\n\nSPEC: {}\n_______________\n",
        OBJECT_LINES,
        " vkCmdDraw(): VkPipeline |1| uses set 0 but that set is not bound. ",
        "All descriptor sets must be bound.",
        "(https://vulkan.lunarg.com/doc/view)"
    );
    assert_eq!(first, expected_first);
    let second = r.error_report(MESSAGE_TYPE_VALIDATION, DRAW_ERROR);
    assert_eq!(
        second,
        format!("\n[IDENTICAL] (1)\n\tvkCmdDraw-None\n{}\n_______________\n", OBJECT_LINES)
    );
    let third = r.error_report(MESSAGE_TYPE_VALIDATION, DRAW_ERROR);
    assert_eq!(
        third,
        format!("\n[IDENTICAL] (2)\n\tvkCmdDraw-None\n{}\n_______________\n", OBJECT_LINES)
    );
}

#[test]
fn new_error_resets_the_count() {
    let mut r = ValidationReporter::new();
    let _ = r.error_report(MESSAGE_TYPE_VALIDATION, DRAW_ERROR);
    let _ = r.error_report(MESSAGE_TYPE_VALIDATION, DRAW_ERROR);
    let other = r.error_report(MESSAGE_TYPE_GENERAL, "plain failure (x)");
    assert!(other.starts_with("\n[VULKAN GENERAL]\n"));
    assert!(other.contains("MSG: plain failure (x)"));
    let again = r.error_report(MESSAGE_TYPE_VALIDATION, DRAW_ERROR);
    assert!(again.starts_with("\n[VULKAN VALIDATION]\n"));
}

#[test]
fn empty_first_message_counts_as_repeat() {
    let mut r = ValidationReporter::new();
    let report = r.error_report(MESSAGE_TYPE_VALIDATION, "");
    assert_eq!(report, "\n[IDENTICAL] (1)\n\t\n\t|  | : \n\n_______________\n");
}
