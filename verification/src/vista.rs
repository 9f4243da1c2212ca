use crate::deck::{carta_valida, cartas_validas, etiqueta, simbolo_palo, Carta, Palo};
use crate::player::Jugador;
use crate::ui::GameState;
use vstd::prelude::*;

verus! {

/// Un texto de una o dos letras centrado en un hueco de cinco, con el
/// sobrante repartido y la letra de mas a la derecha.
pub open spec fn centrado5(s: Seq<char>) -> Seq<char> {
    if s.len() == 1 {
        seq![' ', ' '] + s + seq![' ', ' ']
    } else {
        seq![' '] + s + seq![' ', ' ']
    }
}

/// Cifra decimal como caracter.
pub open spec fn digito(d: int) -> char {
    if d == 0 {
        '0'
    } else if d == 1 {
        '1'
    } else if d == 2 {
        '2'
    } else if d == 3 {
        '3'
    } else if d == 4 {
        '4'
    } else if d == 5 {
        '5'
    } else if d == 6 {
        '6'
    } else if d == 7 {
        '7'
    } else if d == 8 {
        '8'
    } else {
        '9'
    }
}

/// Escritura decimal de un numero, cifra a cifra.
pub open spec fn decimal(n: int) -> Seq<char>
    decreases n,
{
    if n < 10 {
        seq![digito(n)]
    } else {
        decimal(n / 10).push(digito(n % 10))
    }
}

/// Dibujo de una carta: un recuadro con la etiqueta arriba y abajo y
/// el palo en el centro, cada cosa centrada en cinco huecos.
pub open spec fn arte_carta_espec(c: Carta) -> Seq<char> {
    "\n╭─────╮\n│"@ + centrado5(etiqueta(c.valor)) + "│\n│"@ + centrado5(
        seq![simbolo_palo(c.palo)],
    ) + "│\n│"@ + centrado5(etiqueta(c.valor)) + "│\n╰─────╯\n"@
}

/// Cuantas cartas de la mano se ensenan: solo la primera de la banca
/// mientras no se destape, todas en los demas casos.
pub open spec fn cartas_visibles(mano: Seq<Carta>, es_banca: bool, mostrar_todas: bool) -> int {
    if es_banca && !mostrar_todas {
        1
    } else {
        mano.len() as int
    }
}

/// Dibujos de las primeras `k` cartas de la mano, separados por un
/// espacio.
pub open spec fn artes(mano: Seq<Carta>, k: int) -> Seq<char>
    decreases k,
{
    if k <= 0 {
        Seq::empty()
    } else {
        artes(mano, k - 1) + arte_carta_espec(mano[k - 1]) + seq![' ']
    }
}

/// Texto del panel de una mano: aviso si esta vacia; si no, los
/// dibujos de las cartas que se ensenan y, para la banca tapada con
/// mas de una carta, la nota de que hay ocultas.
pub open spec fn texto_mano_espec(mano: Seq<Carta>, es_banca: bool, mostrar_todas: bool) -> Seq<
    char,
> {
    if mano.len() == 0 {
        "[Sin cartas]"@
    } else {
        let base = artes(mano, cartas_visibles(mano, es_banca, mostrar_todas));
        if es_banca && !mostrar_todas && mano.len() > 1 {
            base + "\n+ ocultas"@
        } else {
            base
        }
    }
}

/// Una cifra decimal como texto.
fn digito_str(d: u8) -> (r: &'static str)
    requires
        d < 10,
    ensures
        r@ == seq![digito(d as int)],
{
    let r = match d {
        0 => "0",
        1 => "1",
        2 => "2",
        3 => "3",
        4 => "4",
        5 => "5",
        6 => "6",
        7 => "7",
        8 => "8",
        _ => "9",
    };
    proof {
        reveal_strlit("0");
        reveal_strlit("1");
        reveal_strlit("2");
        reveal_strlit("3");
        reveal_strlit("4");
        reveal_strlit("5");
        reveal_strlit("6");
        reveal_strlit("7");
        reveal_strlit("8");
        reveal_strlit("9");
        assert(r@ =~= seq![digito(d as int)]);
    }
    r
}

/// Escribe un numero en decimal.
pub fn texto_numero(n: u32) -> (r: String)
    ensures
        r@ == decimal(n as int),
    decreases n,
{
    if n < 10 {
        String::from_str(digito_str(n as u8))
    } else {
        let mut r = texto_numero(n / 10);
        r.append(digito_str((n % 10) as u8));
        proof {
            assert(r@ =~= decimal(n as int));
        }
        r
    }
}

/// Centra en cinco huecos un texto de una o dos letras.
fn centrar5(s: &str) -> (r: String)
    requires
        s@.len() == 1 || s@.len() == 2,
    ensures
        r@ == centrado5(s@),
{
    proof {
        reveal_strlit(" ");
        reveal_strlit("  ");
    }
    let mut r = if s.unicode_len() == 1 {
        String::from_str("  ")
    } else {
        String::from_str(" ")
    };
    r.append(s);
    r.append("  ");
    proof {
        assert(r@ =~= centrado5(s@));
    }
    r
}

/// Dibuja una carta como recuadro de texto.
pub fn arte_carta(carta: &Carta) -> (r: String)
    requires
        carta_valida(*carta),
    ensures
        r@ == arte_carta_espec(*carta),
{
    let etiqueta_carta = carta.valor_str();
    let simbolo_carta = match carta.palo {
        Palo::Corazones => "♡",
        Palo::Diamantes => "♢",
        Palo::Treboles => "♧",
        Palo::Picas => "♤",
    };
    proof {
        reveal_strlit("♡");
        reveal_strlit("♢");
        reveal_strlit("♧");
        reveal_strlit("♤");
        assert(simbolo_carta@ =~= seq![simbolo_palo(carta.palo)]);
        if carta.valor == 10 {
            assert(etiqueta(carta.valor).len() == 2);
        } else {
            assert(etiqueta(carta.valor).len() == 1);
        }
    }
    let mut r = String::from_str("\n╭─────╮\n│");
    let centro_etiqueta = centrar5(etiqueta_carta.as_str());
    r.append(centro_etiqueta.as_str());
    r.append("│\n│");
    let centro_simbolo = centrar5(simbolo_carta);
    r.append(centro_simbolo.as_str());
    r.append("│\n│");
    r.append(centro_etiqueta.as_str());
    r.append("│\n╰─────╯\n");
    proof {
        assert(r@ =~= arte_carta_espec(*carta));
    }
    r
}

/// Texto del panel de una mano, tal como lo ensena la mesa.
pub fn texto_mano(jugador: &Jugador, es_banca: bool, mostrar_todas: bool) -> (r: String)
    requires
        cartas_validas(jugador.mano@),
    ensures
        r@ == texto_mano_espec(jugador.mano@, es_banca, mostrar_todas),
{
    if jugador.mano.len() == 0 {
        return String::from_str("[Sin cartas]");
    }
    let a_mostrar: usize = if es_banca && !mostrar_todas {
        1
    } else {
        jugador.mano.len()
    };
    let mut r = String::new();
    let mut i: usize = 0;
    proof {
        assert(r@ =~= artes(jugador.mano@, 0));
    }
    while i < a_mostrar
        invariant
            i <= a_mostrar,
            a_mostrar as int == cartas_visibles(jugador.mano@, es_banca, mostrar_todas),
            a_mostrar <= jugador.mano@.len(),
            cartas_validas(jugador.mano@),
            r@ == artes(jugador.mano@, i as int),
        decreases a_mostrar - i,
    {
        let arte = arte_carta(&jugador.mano[i]);
        r.append(arte.as_str());
        r.append(" ");
        proof {
            reveal_strlit(" ");
            assert(r@ =~= artes(jugador.mano@, i as int + 1));
        }
        i += 1;
    }
    if es_banca && !mostrar_todas && jugador.mano.len() > 1 {
        r.append("\n+ ocultas");
    }
    r
}

/// Texto del marcador de puntos: el numero si la mano esta destapada,
/// un interrogante si no.
pub fn texto_puntos(jugador: &Jugador, mostrar: bool) -> (r: String)
    ensures
        mostrar ==> r@ == decimal(jugador.puntos as int),
        !mostrar ==> r@ == "?"@,
{
    if mostrar {
        texto_numero(jugador.puntos as u32)
    } else {
        String::from_str("?")
    }
}

/// Texto del contador de partidas ganadas.
pub fn texto_ganadas(jugador: &Jugador) -> (r: String)
    ensures
        r@ == "Ganadas: "@ + decimal(jugador.partidas_ganadas as int),
{
    let mut r = String::from_str("Ganadas: ");
    let numero = texto_numero(jugador.partidas_ganadas);
    r.append(numero.as_str());
    r
}

/// Leyenda de teclas del pie, segun el estado del juego.
pub fn pie_de_pagina(estado: GameState) -> (r: &'static str)
    ensures
        estado == GameState::Inicio ==> r@ == "↵:Comenzar | q:Salir"@,
        estado == GameState::TurnoJugador ==> r@ == "↵/1/p:Pedir | 2/s:Plantarse | q:Salir"@,
        estado == GameState::FinJuego ==> r@ == "↵/n:Nueva Partida | q:Salir"@,
        estado == GameState::TurnoBanca ==> r@ == "q:Salir"@,
{
    match estado {
        GameState::Inicio => "↵:Comenzar | q:Salir",
        GameState::TurnoJugador => "↵/1/p:Pedir | 2/s:Plantarse | q:Salir",
        GameState::FinJuego => "↵/n:Nueva Partida | q:Salir",
        GameState::TurnoBanca => "q:Salir",
    }
}

} // verus!
