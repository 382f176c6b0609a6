use triangle_renderer::chain::extent_of;
use triangle_renderer::chain::PixelFormat;
use triangle_renderer::chain::PresentMode;
use triangle_renderer::chain::PresentationChain;
use triangle_renderer::chain::TextureUsage;

#[test]
fn chain_is_created_for_the_window_size() {
    let chain = PresentationChain::create((1280, 720));
    assert_eq!(chain.dimensions(), (1280, 720));
    assert_eq!(chain.format, PixelFormat::Bgra8UnormSrgb);
    assert_eq!(chain.present_mode, PresentMode::Fifo);
    assert_eq!(
        chain.usage,
        TextureUsage {
            copy_src: false,
            copy_dst: false,
            sampled: false,
            storage: false,
            output_attachment: true,
        }
    );
}

#[test]
fn resize_reports_the_new_size() {
    let mut chain = PresentationChain::create((1280, 720));
    chain.resize((640, 480));
    assert_eq!(chain.dimensions(), (640, 480));
    chain.resize((1, 1));
    assert_eq!(chain.dimensions(), (1, 1));
    chain.resize((i32::MAX, 7));
    assert_eq!(chain.dimensions(), (2147483647, 7));
}

#[test]
fn resize_keeps_format_usage_and_mode() {
    let mut chain = PresentationChain::create((1280, 720));
    chain.format = PixelFormat::Rgba8Unorm;
    chain.present_mode = PresentMode::Mailbox;
    let before = chain;
    chain.resize((800, 600));
    assert_eq!(chain.format, before.format);
    assert_eq!(chain.usage, before.usage);
    assert_eq!(chain.present_mode, before.present_mode);
    assert_eq!(chain.dimensions(), (800, 600));
}

#[test]
fn resize_to_the_same_size_changes_nothing() {
    let mut chain = PresentationChain::create((1280, 720));
    let before = chain;
    chain.resize((1280, 720));
    assert_eq!(chain, before);
    chain.resize((640, 480));
    let once = chain;
    chain.resize((640, 480));
    assert_eq!(chain, once);
}

#[test]
fn extent_of_window_dimensions() {
    assert_eq!(extent_of(0), 0);
    assert_eq!(extent_of(1280), 1280);
    assert_eq!(extent_of(i32::MAX), 2147483647);
    assert_eq!(extent_of(-1), 4294967295);
    assert_eq!(extent_of(-720), 4294966576);
    assert_eq!(extent_of(i32::MIN), 2147483648);
}

#[test]
fn negative_sizes_wrap() {
    let mut chain = PresentationChain::create((-1, 0));
    assert_eq!(chain.dimensions(), (4294967295, 0));
    chain.resize((0, -2));
    assert_eq!(chain.dimensions(), (0, 4294967294));
}
