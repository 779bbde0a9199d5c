use frame::keyboard::{map_key_code, KeyCode};
use frame::window_events::{answer, react, split_param, WindowMessage, WindowReaction};

#[test]
fn key_names_map_to_codes() {
    assert_eq!(map_key_code("a"), KeyCode::A);
    assert_eq!(map_key_code("A"), KeyCode::A);
    assert_eq!(map_key_code("z"), KeyCode::Z);
    assert_eq!(map_key_code("7"), KeyCode::Num7);
    assert_eq!(map_key_code("Enter"), KeyCode::Enter);
    assert_eq!(map_key_code(" "), KeyCode::Space);
    assert_eq!(map_key_code("ArrowLeft"), KeyCode::Left);
    assert_eq!(map_key_code("ArrowDown"), KeyCode::Down);
    assert_eq!(map_key_code("Meta"), KeyCode::Meta);
    assert_eq!(map_key_code("F1"), KeyCode::Unknown);
    assert_eq!(map_key_code("enter"), KeyCode::Unknown);
    assert_eq!(map_key_code(""), KeyCode::Unknown);
    assert_eq!(map_key_code("ab"), KeyCode::Unknown);
}

#[test]
fn message_params_split_into_words() {
    assert_eq!(split_param(0x0002_0001), (1, 2));
    assert_eq!(split_param(0x0123_4567), (0x4567, 0x0123));
    assert_eq!(split_param(-1), (0xFFFF, 0xFFFF));
}

#[test]
fn window_reacts_to_messages() {
    assert_eq!(react(WindowMessage::Destroy, 0), WindowReaction::Quit);
    assert_eq!(
        react(WindowMessage::Size, (600 << 16) | 800),
        WindowReaction::Resize { width: 800, height: 600 }
    );
    assert_eq!(
        react(WindowMessage::LeftButtonDown, (20 << 16) | 10),
        WindowReaction::Click { x: 10, y: 20 }
    );
    assert_eq!(react(WindowMessage::EraseBackground, 0), WindowReaction::KeepBackground);
    assert_eq!(react(WindowMessage::MouseMove, 5), WindowReaction::Ignore);
    assert_eq!(react(WindowMessage::KeyDown, 0), WindowReaction::Default);
    assert_eq!(answer(WindowReaction::KeepBackground), Some(1));
    assert_eq!(answer(WindowReaction::Repaint), Some(0));
    assert_eq!(answer(WindowReaction::Default), None);
}
