pub mod builder;
pub mod canvas;
pub mod element;

pub use self::builder::{
    GuiElementBuilder, GuiElementCanvasBuilder, GuiElementTextureBuilder, Point, Rect,
};
pub use self::canvas::Canvas;
pub use self::element::{CanvasConfig, GuiElement, GuiElementData, GuiElementRef, TextRequest};
