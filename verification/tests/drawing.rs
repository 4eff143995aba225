use flt_terminal::command::Command;
use flt_terminal::encoder::{checked_payload_len, encode_frame, DrawError};
use flt_terminal::pixel::{first_ragged_row, rgb_data, to_color, Color, Pixel};

fn red() -> Pixel {
    Pixel { r: 255, g: 0, b: 0, a: 255 }
}

fn pixel_at(x: usize, y: usize) -> Pixel {
    Pixel {
        r: (x * 3 + y) as u8,
        g: (x + y * 5 + 1) as u8,
        b: (x * y + 2) as u8,
        a: (x + y) as u8,
    }
}

fn grid_of(width: usize, height: usize) -> Vec<Vec<Pixel>> {
    let mut grid = Vec::new();
    for y in 0..height {
        let mut row = Vec::new();
        for x in 0..width {
            row.push(pixel_at(x, y));
        }
        grid.push(row);
    }
    grid
}

fn printed(plan: &[Command]) -> Vec<String> {
    let mut texts = Vec::new();
    for command in plan {
        if let Command::Print(text) = command {
            texts.push(text.clone());
        }
    }
    texts
}

fn payload_in(text: &str) -> String {
    let start = text.find(';').expect("a chunk has a header") + 1;
    let end = text.len() - 2;
    String::from(&text[start..end])
}

#[test]
fn color_of_a_pixel_drops_alpha() {
    assert_eq!(to_color(&Pixel { r: 1, g: 2, b: 3, a: 4 }), Color { r: 1, g: 2, b: 3 });
    assert_eq!(to_color(&red()), Color { r: 255, g: 0, b: 0 });
}

#[test]
fn rgb_data_is_row_major_without_alpha() {
    let grid = vec![
        vec![Pixel { r: 1, g: 2, b: 3, a: 100 }, Pixel { r: 4, g: 5, b: 6, a: 101 }],
        vec![Pixel { r: 7, g: 8, b: 9, a: 102 }, Pixel { r: 10, g: 11, b: 12, a: 103 }],
        vec![Pixel { r: 13, g: 14, b: 15, a: 104 }, Pixel { r: 16, g: 17, b: 18, a: 105 }],
    ];
    assert_eq!(rgb_data(&grid), vec![1, 2, 3, 4, 5, 6, 7, 8, 9, 10, 11, 12, 13, 14, 15, 16, 17, 18]);
}

#[test]
fn rgb_data_of_nothing_is_empty() {
    assert_eq!(rgb_data(&Vec::new()), Vec::<u8>::new());
    assert_eq!(rgb_data(&vec![Vec::new(), Vec::new()]), Vec::<u8>::new());
}

#[test]
fn rgb_data_has_each_pixel_at_its_place() {
    let (width, height) = (7usize, 5usize);
    let data = rgb_data(&grid_of(width, height));
    assert_eq!(data.len(), 3 * width * height);
    for y in 0..height {
        for x in 0..width {
            let place = 3 * (y * width + x);
            let pixel = pixel_at(x, y);
            assert_eq!(data[place], pixel.r);
            assert_eq!(data[place + 1], pixel.g);
            assert_eq!(data[place + 2], pixel.b);
        }
    }
}

#[test]
fn rectangular_grid_has_no_ragged_row() {
    assert_eq!(first_ragged_row(&Vec::new()), None);
    assert_eq!(first_ragged_row(&grid_of(3, 1)), None);
    assert_eq!(first_ragged_row(&grid_of(4, 6)), None);
    assert_eq!(first_ragged_row(&vec![Vec::new(), Vec::new()]), None);
}

#[test]
fn first_ragged_row_is_the_first_that_differs() {
    let mut grid = grid_of(4, 6);
    grid[5].pop();
    grid[3].push(red());
    assert_eq!(first_ragged_row(&grid), Some(3));
    let grid = vec![Vec::new(), vec![red()]];
    assert_eq!(first_ragged_row(&grid), Some(1));
}

#[test]
fn two_by_two_red_grid_is_one_chunk() {
    let grid = vec![vec![red(), red()], vec![red(), red()]];
    let plan = encode_frame(&grid, (0, 0)).expect("a rectangular grid is drawn");
    assert_eq!(plan.len(), 3);
    assert_eq!(plan[0], Command::MoveTo(0, 0));
    assert_eq!(plan[2], Command::Flush);
    let texts = printed(&plan);
    assert_eq!(texts.len(), 1);
    assert!(texts[0].starts_with("\x1b_Ga=T,f=24,t=d,s=2,v=2,x=0,y=0,m=0;"));
    assert!(texts[0].ends_with("\x1b\\"));
    let decoded = base64::decode_config(payload_in(&texts[0]), base64::STANDARD)
        .expect("the payload is base64");
    assert_eq!(decoded, vec![255, 0, 0, 255, 0, 0, 255, 0, 0, 255, 0, 0]);
    assert_eq!(texts[0], "\x1b_Ga=T,f=24,t=d,s=2,v=2,x=0,y=0,m=0;/wAA/wAA/wAA/wAA\x1b\\");
}

#[test]
fn payload_is_standard_base64_with_padding() {
    // The bytes of "Man" and of "Ma" with their well-known encodings.
    let man = vec![vec![Pixel { r: 77, g: 97, b: 110, a: 0 }]];
    let plan = encode_frame(&man, (0, 0)).expect("a rectangular grid is drawn");
    assert_eq!(
        plan,
        vec![
            Command::MoveTo(0, 0),
            Command::Print(String::from("\x1b_Ga=T,f=24,t=d,s=1,v=1,x=0,y=0,m=0;TWFu\x1b\\")),
            Command::Flush,
        ]
    );
    let high = vec![vec![Pixel { r: 251, g: 255, b: 190, a: 0 }]];
    let plan = encode_frame(&high, (0, 0)).expect("a rectangular grid is drawn");
    assert_eq!(payload_in(&printed(&plan)[0]), "+/++");
}

#[test]
fn grid_without_rows_draws_nothing() {
    assert_eq!(encode_frame(&Vec::new(), (0, 0)), Ok(Vec::new()));
    assert_eq!(encode_frame(&Vec::new(), (5, -5)), Ok(Vec::new()));
}

#[test]
fn grid_of_empty_rows_moves_and_flushes_only() {
    let grid: Vec<Vec<Pixel>> = vec![Vec::new(), Vec::new(), Vec::new()];
    assert_eq!(encode_frame(&grid, (0, 0)), Ok(vec![Command::MoveTo(0, 0), Command::Flush]));
}

#[test]
fn ragged_grid_is_refused_with_its_first_ragged_row() {
    let mut grid = grid_of(5, 4);
    grid[2].pop();
    grid[3].pop();
    assert_eq!(
        encode_frame(&grid, (0, 0)),
        Err(DrawError::RaggedGrid { row: 2, expected: 5, found: 4 })
    );
    let mut grid = grid_of(2, 3);
    grid[1].push(red());
    assert_eq!(
        encode_frame(&grid, (0, 0)),
        Err(DrawError::RaggedGrid { row: 1, expected: 2, found: 3 })
    );
}

#[test]
fn ragged_grid_error_describes_the_row() {
    let error = DrawError::RaggedGrid { row: 12, expected: 640, found: 0 };
    assert_eq!(error.message(), "row 12 of the pixel grid has 0 pixels, but the first row has 640");
}

#[test]
fn too_large_frame_error_describes_the_size() {
    let error = DrawError::FrameTooLarge { width: usize::MAX, height: 3 };
    assert_eq!(
        error.message(),
        format!("a frame of {} by 3 pixels is too large to encode", usize::MAX)
    );
}

#[test]
fn payload_length_is_four_characters_a_pixel() {
    assert_eq!(checked_payload_len(0, 0), Some(0));
    assert_eq!(checked_payload_len(2, 2), Some(16));
    assert_eq!(checked_payload_len(640, 480), Some(1_228_800));
    assert_eq!(checked_payload_len(usize::MAX / 4, 1), Some(usize::MAX / 4 * 4));
}

#[test]
fn payload_length_beyond_usize_is_none() {
    assert_eq!(checked_payload_len(usize::MAX, 2), None);
    assert_eq!(checked_payload_len(usize::MAX / 4 + 1, 1), None);
    assert_eq!(checked_payload_len(1 << (usize::BITS / 2), 1 << (usize::BITS / 2)), None);
    assert_eq!(checked_payload_len(usize::MAX, usize::MAX), None);
}

#[test]
fn large_grid_is_sent_in_chunks() {
    // 64 x 64 pixels are 12288 bytes and 16384 characters: four full chunks.
    let grid = grid_of(64, 64);
    let plan = encode_frame(&grid, (3, -2)).expect("a rectangular grid is drawn");
    let texts = printed(&plan);
    assert_eq!(plan.len(), 6);
    assert_eq!(texts.len(), 4);
    let mut payload = String::new();
    for (index, text) in texts.iter().enumerate() {
        let flag = if index < 3 { 1 } else { 0 };
        assert!(text.starts_with(&format!("\x1b_Ga=T,f=24,t=d,s=64,v=64,x=3,y=-2,m={};", flag)));
        assert_eq!(payload_in(text).len(), 4096);
        payload.push_str(&payload_in(text));
    }
    let decoded = base64::decode_config(&payload, base64::STANDARD).expect("the payload is base64");
    assert_eq!(decoded, rgb_data(&grid));
}

#[test]
fn grid_with_a_partial_last_chunk_is_sent_whole() {
    // 37 x 37 pixels are 4107 bytes and 5476 characters: one full chunk and a rest.
    let grid = grid_of(37, 37);
    let plan = encode_frame(&grid, (0, 0)).expect("a rectangular grid is drawn");
    let texts = printed(&plan);
    assert_eq!(texts.len(), 2);
    assert!(texts[0].starts_with("\x1b_Ga=T,f=24,t=d,s=37,v=37,x=0,y=0,m=1;"));
    assert!(texts[1].starts_with("\x1b_Ga=T,f=24,t=d,s=37,v=37,x=0,y=0,m=0;"));
    assert_eq!(payload_in(&texts[0]).len(), 4096);
    assert_eq!(payload_in(&texts[1]).len(), 1380);
    let payload = format!("{}{}", payload_in(&texts[0]), payload_in(&texts[1]));
    assert_eq!(payload, base64::encode_config(rgb_data(&grid), base64::STANDARD));
}

#[test]
fn alpha_does_not_change_the_frame() {
    let opaque = vec![vec![Pixel { r: 9, g: 8, b: 7, a: 255 }]];
    let clear = vec![vec![Pixel { r: 9, g: 8, b: 7, a: 0 }]];
    assert_eq!(encode_frame(&opaque, (0, 0)), encode_frame(&clear, (0, 0)));
}

#[test]
fn width_and_height_are_those_of_the_grid() {
    let plan = encode_frame(&grid_of(3, 2), (0, 0)).expect("a rectangular grid is drawn");
    assert!(printed(&plan)[0].starts_with("\x1b_Ga=T,f=24,t=d,s=3,v=2,"));
    let plan = encode_frame(&grid_of(1, 9), (0, 0)).expect("a rectangular grid is drawn");
    assert!(printed(&plan)[0].starts_with("\x1b_Ga=T,f=24,t=d,s=1,v=9,"));
}
