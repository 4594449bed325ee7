//! What the framebuffers of the render and shadow passes are made of.

use vstd::prelude::*;

verus! {

/// The attachments and size of one framebuffer; `V` is the image-view type.
#[derive(Clone, Debug)]
pub struct FramebufferDesc<V> {
    pub attachments: Vec<V>,
    pub width: u32,
    pub height: u32,
    pub layers: u32,
}

/// One framebuffer per presentable image: its color view first, then the
/// shared depth view, all at the surface resolution, one layer each.
pub fn render_framebuffers<V: Copy>(
    present_views: &Vec<V>,
    depth_view: V,
    width: u32,
    height: u32,
) -> (r: Vec<FramebufferDesc<V>>)
    ensures
        r.len() == present_views.len(),
        forall|i: int|
            0 <= i < r.len() ==> {
                &&& (#[trigger] r[i]).attachments@ == seq![present_views[i], depth_view]
                &&& r[i].width == width
                &&& r[i].height == height
                &&& r[i].layers == 1
            },
{
    let mut r: Vec<FramebufferDesc<V>> = Vec::new();
    let mut i: usize = 0;
    while i < present_views.len()
        invariant
            i <= present_views.len(),
            r.len() == i,
            forall|j: int|
                0 <= j < i ==> {
                    &&& (#[trigger] r[j]).attachments@ == seq![present_views[j], depth_view]
                    &&& r[j].width == width
                    &&& r[j].height == height
                    &&& r[j].layers == 1
                },
        decreases present_views.len() - i,
    {
        let color_view = present_views[i];
        let mut attachments: Vec<V> = Vec::new();
        attachments.push(color_view);
        attachments.push(depth_view);
        assert(attachments@ =~= seq![present_views[i as int], depth_view]);
        r.push(FramebufferDesc { attachments, width, height, layers: 1 });
        i = i + 1;
    }
    r
}

/// The single framebuffer of the shadow pass: the depth view alone, at the
/// shadow-map resolution, one layer.
pub fn shadow_framebuffer<V: Copy>(depth_view: V, width: u32, height: u32) -> (r: FramebufferDesc<V>)
    ensures
        r.attachments@ == seq![depth_view],
        r.width == width,
        r.height == height,
        r.layers == 1,
{
    let mut attachments: Vec<V> = Vec::new();
    attachments.push(depth_view);
    assert(attachments@ =~= seq![depth_view]);
    FramebufferDesc { attachments, width, height, layers: 1 }
}

} // verus!
