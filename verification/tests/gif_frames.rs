use vapour::animation::{decode_gif_frames, GifFrames};

fn two_frame_gif() -> Vec<u8> {
    let mut out = Vec::new();
    {
        let mut encoder = gif::Encoder::new(&mut out, 2, 2, &[]).unwrap();
        let mut red = vec![255, 0, 0, 255, 255, 0, 0, 255, 255, 0, 0, 255, 255, 0, 0, 255];
        let mut blue = vec![0, 0, 255, 255, 0, 0, 255, 255, 0, 0, 255, 255, 0, 0, 255, 255];
        encoder.write_frame(&gif::Frame::from_rgba(2, 2, &mut red)).unwrap();
        encoder.write_frame(&gif::Frame::from_rgba(2, 2, &mut blue)).unwrap();
    }
    out
}

fn reference_decode(bytes: &[u8]) -> Option<GifFrames> {
    let mut options = gif::DecodeOptions::new();
    options.set_color_output(gif::ColorOutput::RGBA);
    let mut decoder = options.read_info(bytes).ok()?;
    let (width, height) = (decoder.width(), decoder.height());
    let mut frames = Vec::new();
    while let Some(frame) = decoder.read_next_frame().ok()? {
        frames.push(frame.buffer.to_vec());
    }
    Some(GifFrames { width, height, frames })
}

#[test]
fn decodes_every_frame() {
    let bytes = two_frame_gif();
    let decoded = decode_gif_frames(&bytes).unwrap();
    assert_eq!((decoded.width, decoded.height), (2, 2));
    assert_eq!(decoded.frames.len(), 2);
    assert_eq!(decoded.frames[0].len(), 16);
    assert_eq!(&decoded.frames[0][0..4], &[255, 0, 0, 255]);
    assert_eq!(&decoded.frames[1][0..4], &[0, 0, 255, 255]);
    assert_eq!(Some(decoded), reference_decode(&bytes));
}

#[test]
fn invalid_bytes_do_not_decode() {
    assert_eq!(decode_gif_frames(b"not a gif"), None);
    assert_eq!(decode_gif_frames(&[]), None);
}

#[test]
fn truncated_file_does_not_decode() {
    let bytes = two_frame_gif();
    let cut = &bytes[..bytes.len() - 6];
    assert_eq!(decode_gif_frames(cut), reference_decode(cut));
}
