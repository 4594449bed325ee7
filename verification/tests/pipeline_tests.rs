use engine::collision::Contact;
use engine::pipeline::{render_framebuffers, shadow_framebuffer};

#[test]
fn one_framebuffer_per_present_image() {
    let views = vec![10u64, 11, 12];
    let fbs = render_framebuffers(&views, 99u64, 800, 600);
    assert_eq!(fbs.len(), 3);
    for (i, fb) in fbs.iter().enumerate() {
        assert_eq!(fb.attachments, vec![views[i], 99]);
        assert_eq!((fb.width, fb.height, fb.layers), (800, 600, 1));
    }
}

#[test]
fn no_present_images_no_framebuffers() {
    let views: Vec<u32> = Vec::new();
    assert!(render_framebuffers(&views, 7u32, 1, 1).is_empty());
}

#[test]
fn shadow_framebuffer_holds_only_depth() {
    let fb = shadow_framebuffer(5u8, 2048, 2048);
    assert_eq!(fb.attachments, vec![5u8]);
    assert_eq!((fb.width, fb.height, fb.layers), (2048, 2048, 1));
}

#[test]
fn new_contact_has_no_collision() {
    let c = Contact::new(3, 7, (0.0f32, 0.0f32, 0.0f32));
    assert_eq!(c.body_a, 3);
    assert_eq!(c.body_b, 7);
    assert!(!c.has_collision);
    assert_eq!(c.normal, (0.0, 0.0, 0.0));
    assert_eq!(c.pt_a_world, (0.0, 0.0, 0.0));
    assert_eq!(c.pt_b_world, (0.0, 0.0, 0.0));
}
