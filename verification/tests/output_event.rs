use sky_mirror::core_model::types::BackendEvent;
use sky_mirror::smithay_backend::output_event::{
    SmithayOutputEventMode, SmithayOutputEventProbe, SmithayOutputResizeDescriptor,
};

/// 验证输出尺寸描述器会原样保存宽度和高度。
#[test]
fn output_resize_descriptor_builds_size() {
    let descriptor = SmithayOutputResizeDescriptor::new(2560, 1440);

    assert_eq!(descriptor.width, 2560);
    assert_eq!(descriptor.height, 1440);
    assert!(descriptor.is_non_zero());
}

/// 验证描述器能够只读识别任一维度为零的尺寸。
#[test]
fn output_resize_descriptor_detects_zero_size() {
    assert!(!SmithayOutputResizeDescriptor::new(0, 1440).is_non_zero());
    assert!(!SmithayOutputResizeDescriptor::new(2560, 0).is_non_zero());
}

/// 验证输出事件探针会生成完整的纯数据 OutputResized 事件。
#[test]
fn output_event_probe_creates_output_resized_event() {
    let event = SmithayOutputEventProbe::output_resized_event(
        SmithayOutputResizeDescriptor::new(2560, 1440),
    );

    assert_eq!(
        event,
        BackendEvent::OutputResized {
            width: 2560,
            height: 1440,
        }
    );
}

/// 验证探针不会拦截零尺寸，尺寸有效性仍由核心 Validator 判断。
#[test]
fn output_event_probe_preserves_zero_size() {
    let event = SmithayOutputEventProbe::output_resized_event(
        SmithayOutputResizeDescriptor::new(0, 900),
    );

    assert_eq!(
        event,
        BackendEvent::OutputResized {
            width: 0,
            height: 900,
        }
    );
}

/// 验证输出事件适配器固定保持纯探针模式。
#[test]
fn output_event_probe_reports_probe_mode() {
    assert!(SmithayOutputEventProbe::is_probe_only());
    assert_eq!(
        SmithayOutputEventProbe::mode(),
        SmithayOutputEventMode::ProbeOnly
    );
    assert_eq!(
        SmithayOutputEventProbe::mode_description(),
        "smithay-output-event-probe-only"
    );
}
